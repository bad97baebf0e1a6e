//! The structured events produced from the tool's output, and their model.
use vstd::prelude::*;

verus! {

/// Kind of change that a resource goes through. A replacement is reported
/// as `Destroy` followed by `Create`.
#[derive(Clone, Copy, Debug, PartialEq, Eq, Structural)]
pub enum TerraformResourceChange {
    Create,
    Read,
    Update,
    Destroy,
    Replace,
}

/// Where in its lifecycle the resource (or the whole command) is.
#[derive(Clone, Copy, Debug, PartialEq, Eq, Structural)]
pub enum TerraformResourceStatus {
    Planned,
    Started,
    InProgress,
    Done,
    Completed,
}

/// The output channel a line was read from.
#[derive(Clone, Copy, Debug, PartialEq, Eq, Structural)]
pub enum TerraformSourceStream {
    Stdout,
    Stderr,
}

/// One line of the tool's output, classified.
#[derive(Debug)]
pub struct TerraformEvent {
    pub change: Vec<TerraformResourceChange>,
    pub status: Option<TerraformResourceStatus>,
    pub resource_path: Option<String>,
    pub id_key: Option<String>,
    pub id_value: Option<String>,
    pub create_count: Option<u32>,
    pub update_count: Option<u32>,
    pub delete_count: Option<u32>,
    pub command: String,
    pub source: String,
    pub source_stream: TerraformSourceStream,
}

/// Mathematical model of a `TerraformEvent`.
pub struct EventView {
    pub change: Seq<TerraformResourceChange>,
    pub status: Option<TerraformResourceStatus>,
    pub resource_path: Option<Seq<char>>,
    pub id_key: Option<Seq<char>>,
    pub id_value: Option<Seq<char>>,
    pub create_count: Option<u32>,
    pub update_count: Option<u32>,
    pub delete_count: Option<u32>,
    pub command: Seq<char>,
    pub source: Seq<char>,
    pub source_stream: TerraformSourceStream,
}

/// The characters of an optional text.
pub open spec fn text_of(o: Option<String>) -> Option<Seq<char>> {
    match o {
        Some(t) => Some(t@),
        None => None,
    }
}

impl View for TerraformEvent {
    type V = EventView;

    open spec fn view(&self) -> EventView {
        EventView {
            change: self.change@,
            status: self.status,
            resource_path: text_of(self.resource_path),
            id_key: text_of(self.id_key),
            id_value: text_of(self.id_value),
            create_count: self.create_count,
            update_count: self.update_count,
            delete_count: self.delete_count,
            command: self.command@,
            source: self.source@,
            source_stream: self.source_stream,
        }
    }
}

/// An event that only carries its source text: no change, status, address,
/// identifier or count, and no command.
pub open spec fn raw_event(source: Seq<char>, stream: TerraformSourceStream) -> EventView {
    EventView {
        change: Seq::empty(),
        status: None,
        resource_path: None,
        id_key: None,
        id_value: None,
        create_count: None,
        update_count: None,
        delete_count: None,
        command: Seq::empty(),
        source,
        source_stream: stream,
    }
}

/// The same event, tagged with a command name.
pub open spec fn tagged(e: EventView, command: Seq<char>) -> EventView {
    EventView { command, ..e }
}

/// Well-formedness of an event: a summary carries no address, other statuses
/// carry no counts, and an address comes only with a status.
pub open spec fn well_formed(e: EventView) -> bool {
    &&& e.status == Some(TerraformResourceStatus::Completed) ==> e.resource_path is None
        && e.id_key is None && e.id_value is None && e.change.len() == 0
    &&& e.status != Some(TerraformResourceStatus::Completed) ==> e.create_count is None
        && e.update_count is None && e.delete_count is None
    &&& e.status is None ==> e.resource_path is None && e.change.len() == 0
    &&& e.id_key is Some <==> e.id_value is Some
}

impl Default for TerraformEvent {
    fn default() -> (r: Self)
        ensures
            r@ == raw_event(Seq::empty(), TerraformSourceStream::Stdout),
    {
        TerraformEvent {
            change: Vec::new(),
            status: None,
            resource_path: None,
            id_key: None,
            id_value: None,
            create_count: None,
            update_count: None,
            delete_count: None,
            command: String::new(),
            source: String::new(),
            source_stream: TerraformSourceStream::Stdout,
        }
    }
}

} // verus!
