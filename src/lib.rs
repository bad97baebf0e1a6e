//! Drives an infrastructure-provisioning tool through its init, plan, apply
//! and destroy lifecycle and turns its console output into structured
//! events.
pub mod classify;
pub mod errors;
pub mod event;
pub mod grammar;
pub mod lifecycle;
pub mod process;
pub mod text;

pub use classify::{classify_apply_line, classify_plan_line};
pub use errors::Error;
pub use event::{
    TerraformEvent, TerraformResourceChange, TerraformResourceStatus, TerraformSourceStream,
};
pub use lifecycle::Phase;
pub use process::{Process, ProcessContext, StreamProcessor};
