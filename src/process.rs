//! Supervision of one run of the tool: its configuration, the splitting of
//! each output channel into lines, the record of what it printed, and the
//! decision taken at each tick of the wait loop.
use std::collections::HashMap;
use vstd::prelude::*;

verus! {

/// How a supervised run can fail.
#[derive(Debug)]
pub enum Error {
    /// The child was still running when its deadline passed; it was killed.
    TimeoutError,
    /// The child could not be launched, or a pipe failed.
    IOError(String),
}

/// What is needed to launch the tool: its binary, the directory to run it
/// in, variables laid over the inherited environment, and a deadline in
/// seconds for each run.
pub struct Process {
    binary_path: String,
    working_directory: String,
    envs: HashMap<String, String>,
    timeout_secs: u64,
}

impl Process {
    pub fn new(
        binary_path: String,
        working_directory: String,
        envs: HashMap<String, String>,
        timeout_secs: u64,
    ) -> (r: Process)
        ensures
            r.binary_path() == binary_path@,
            r.working_directory() == working_directory@,
            r.envs() == envs,
            r.timeout_secs() == timeout_secs,
    {
        Process { binary_path, working_directory, envs, timeout_secs }
    }

    pub closed spec fn binary_path(&self) -> Seq<char> {
        self.binary_path@
    }

    pub closed spec fn working_directory(&self) -> Seq<char> {
        self.working_directory@
    }

    pub closed spec fn envs(&self) -> HashMap<String, String> {
        self.envs
    }

    pub closed spec fn timeout_secs(&self) -> u64 {
        self.timeout_secs
    }

    pub fn get_binary_path(&self) -> (r: &str)
        ensures
            r@ == self.binary_path(),
    {
        self.binary_path.as_str()
    }

    pub fn get_working_directory(&self) -> (r: &str)
        ensures
            r@ == self.working_directory(),
    {
        self.working_directory.as_str()
    }

    pub fn get_envs(&self) -> (r: &HashMap<String, String>)
        ensures
            *r == self.envs(),
    {
        &self.envs
    }

    pub fn get_timeout_secs(&self) -> (r: u64)
        ensures
            r == self.timeout_secs(),
    {
        self.timeout_secs
    }
}

/// What the wait loop observed of the child at one tick.
pub enum ChildState {
    /// Still running, after `elapsed_secs` whole seconds.
    Running { elapsed_secs: u64 },
    /// Exited with a code, or was ended by a signal.
    Exited { code: Option<i32>, signal: Option<i32> },
    /// Its status could not be observed.
    Unknown,
}

/// What the wait loop does next.
#[derive(Debug, PartialEq, Eq, Structural)]
pub enum Step {
    /// Sleep briefly, then hand on every line read so far, and poll again.
    Drain,
    /// Hand on the remaining lines and return the record.
    Finish,
    /// Kill the child, hand on the remaining lines and fail with a timeout.
    Kill,
}

/// The decision of the wait loop: a child that has exited is finished; one
/// still running within its deadline is drained; one past its deadline, or
/// whose status cannot be observed, is killed.
pub fn next_step(state: &ChildState, timeout_secs: u64) -> (r: Step)
    ensures
        r == match state {
            ChildState::Running { elapsed_secs } => if *elapsed_secs < timeout_secs {
                Step::Drain
            } else {
                Step::Kill
            },
            ChildState::Exited { .. } => Step::Finish,
            ChildState::Unknown => Step::Kill,
        },
{
    match state {
        ChildState::Running { elapsed_secs } => if *elapsed_secs < timeout_secs {
            Step::Drain
        } else {
            Step::Kill
        },
        ChildState::Exited { .. } => Step::Finish,
        ChildState::Unknown => Step::Kill,
    }
}

/// What is recorded in place of a line that could not be read.
pub open spec fn unreadable_line() -> Seq<char> {
    "<error retrieving stream content>"@
}

/// The record of one run: every line of each channel in the order read, and
/// how the child ended.
pub struct ProcessContext {
    pub stdout: Vec<String>,
    pub stderr: Vec<String>,
    pub exit_code: Option<i32>,
    pub signal_code: Option<i32>,
}

/// The text lines of a record.
pub open spec fn texts(v: Seq<String>) -> Seq<Seq<char>> {
    v.map_values(|t: String| t@)
}

impl ProcessContext {
    /// An empty record of a run still going.
    pub fn new() -> (r: ProcessContext)
        ensures
            r.stdout@.len() == 0,
            r.stderr@.len() == 0,
            r.exit_code is None,
            r.signal_code is None,
    {
        ProcessContext { stdout: Vec::new(), stderr: Vec::new(), exit_code: None, signal_code: None }
    }

    /// Records one line read from standard output, or the placeholder where
    /// it could not be read, and returns what the line callback receives.
    pub fn record_stdout(&mut self, line: Option<String>) -> (r: Option<String>)
        ensures
            r == line,
            texts(final(self).stdout@) == texts(old(self).stdout@).push(
                match line {
                    Some(t) => t@,
                    None => unreadable_line(),
                },
            ),
            final(self).stderr == old(self).stderr,
            final(self).exit_code == old(self).exit_code,
            final(self).signal_code == old(self).signal_code,
    {
        let kept = match &line {
            Some(t) => t.clone(),
            None => String::from_str("<error retrieving stream content>"),
        };
        self.stdout.push(kept);
        proof {
            assert(texts(self.stdout@) =~= texts(old(self).stdout@).push(kept@));
        }
        line
    }

    /// Records one line read from standard error, or the placeholder where
    /// it could not be read, and returns what the line callback receives.
    pub fn record_stderr(&mut self, line: Option<String>) -> (r: Option<String>)
        ensures
            r == line,
            texts(final(self).stderr@) == texts(old(self).stderr@).push(
                match line {
                    Some(t) => t@,
                    None => unreadable_line(),
                },
            ),
            final(self).stdout == old(self).stdout,
            final(self).exit_code == old(self).exit_code,
            final(self).signal_code == old(self).signal_code,
    {
        let kept = match &line {
            Some(t) => t.clone(),
            None => String::from_str("<error retrieving stream content>"),
        };
        self.stderr.push(kept);
        proof {
            assert(texts(self.stderr@) =~= texts(old(self).stderr@).push(kept@));
        }
        line
    }

    /// Records how the child ended.
    pub fn record_exit(&mut self, code: Option<i32>, signal: Option<i32>)
        ensures
            final(self).exit_code == code,
            final(self).signal_code == signal,
            final(self).stdout == old(self).stdout,
            final(self).stderr == old(self).stderr,
    {
        self.exit_code = code;
        self.signal_code = signal;
    }
}

/// A line without the carriage return that may end it.
pub open spec fn strip_cr(b: Seq<u8>) -> Seq<u8> {
    if b.len() > 0 && b.last() == 13u8 {
        b.drop_last()
    } else {
        b
    }
}

/// The lines completed, in order, and the bytes left pending, when the bytes
/// `s` arrive after `p0` was pending.
pub open spec fn split_from(p0: Seq<u8>, s: Seq<u8>) -> (Seq<Seq<u8>>, Seq<u8>)
    decreases s.len(),
{
    if s.len() == 0 {
        (Seq::empty(), p0)
    } else {
        let (ls, p) = split_from(p0, s.drop_last());
        if s.last() == 10u8 {
            (ls.push(strip_cr(p)), Seq::empty())
        } else {
            (ls, p.push(s.last()))
        }
    }
}

/// However a channel's bytes are cut into chunks, the lines come out the
/// same and in the order they were written: splitting `s1` then `s2` gives
/// the lines of `s1`, then those of `s2`, and leaves what splitting
/// `s1 + s2` at once leaves.
pub proof fn lemma_split_chunks(p0: Seq<u8>, s1: Seq<u8>, s2: Seq<u8>)
    ensures
        split_from(p0, s1 + s2) == ({
            let (l1, p1) = split_from(p0, s1);
            let (l2, p2) = split_from(p1, s2);
            (l1 + l2, p2)
        }),
    decreases s2.len(),
{
    if s2.len() == 0 {
        assert(s1 + s2 =~= s1);
        let (l1, p1) = split_from(p0, s1);
        assert(l1 + Seq::<Seq<u8>>::empty() =~= l1);
    } else {
        assert((s1 + s2).drop_last() =~= s1 + s2.drop_last());
        lemma_split_chunks(p0, s1, s2.drop_last());
        let (l1, p1) = split_from(p0, s1);
        let (l2, p2) = split_from(p1, s2.drop_last());
        assert((l1 + l2).push(strip_cr(p2)) =~= l1 + l2.push(strip_cr(p2)));
    }
}

/// The contents of a list of lines.
pub open spec fn line_bytes(v: Seq<Vec<u8>>) -> Seq<Seq<u8>> {
    v.map_values(|l: Vec<u8>| l@)
}

/// Splits the bytes of one output channel into lines, as they arrive: a line
/// ends at a line feed, which is dropped together with a carriage return
/// just before it.
pub struct StreamProcessor {
    pending: Vec<u8>,
}

impl StreamProcessor {
    /// The bytes read since the last line feed.
    pub closed spec fn pending(&self) -> Seq<u8> {
        self.pending@
    }

    pub fn new() -> (r: StreamProcessor)
        ensures
            r.pending() == Seq::<u8>::empty(),
    {
        StreamProcessor { pending: Vec::new() }
    }

    /// Takes one byte; a line feed completes the line read so far, which is
    /// returned.
    pub fn feed(&mut self, b: u8) -> (r: Option<Vec<u8>>)
        ensures
            b == 10u8 ==> (r matches Some(l) && l@ == strip_cr(old(self).pending())),
            b == 10u8 ==> final(self).pending() == Seq::<u8>::empty(),
            b != 10u8 ==> r is None && final(self).pending() == old(self).pending().push(b),
    {
        if b == 10u8 {
            let mut line: Vec<u8> = Vec::new();
            std::mem::swap(&mut line, &mut self.pending);
            if line.len() > 0 && line[line.len() - 1] == 13u8 {
                line.pop();
            }
            Some(line)
        } else {
            self.pending.push(b);
            None
        }
    }

    /// Takes a chunk of bytes and returns the lines it completes, in the
    /// order they were written.
    pub fn feed_all(&mut self, chunk: &[u8]) -> (r: Vec<Vec<u8>>)
        ensures
            (line_bytes(r@), final(self).pending()) == split_from(old(self).pending(), chunk@),
    {
        let mut out: Vec<Vec<u8>> = Vec::new();
        let mut k: usize = 0;
        while k < chunk.len()
            invariant
                k <= chunk@.len(),
                (line_bytes(out@), self.pending()) == split_from(
                    old(self).pending(),
                    chunk@.subrange(0, k as int),
                ),
            decreases chunk@.len() - k,
        {
            let ghost before = line_bytes(out@);
            proof {
                assert(chunk@.subrange(0, k + 1).drop_last() =~= chunk@.subrange(0, k as int));
            }
            if let Some(line) = self.feed(chunk[k]) {
                out.push(line);
                proof {
                    assert(line_bytes(out@) =~= before.push(line@));
                }
            }
            k = k + 1;
        }
        proof {
            assert(chunk@.subrange(0, k as int) =~= chunk@);
        }
        out
    }

    /// At the end of the channel: the last line, if it is not empty and was
    /// not ended by a line feed.
    pub fn finish(self) -> (r: Option<Vec<u8>>)
        ensures
            r is Some <==> self.pending().len() > 0,
            r matches Some(l) ==> l@ == self.pending(),
    {
        if self.pending.len() > 0 {
            Some(self.pending)
        } else {
            None
        }
    }
}

} // verus!
