//! Driver logic for one advance of a checkpointed rollup machine.
//!
//! The machine, the file system and the caller's handlers live outside this
//! library. What is decided here: how the input is laid out on the wire, how
//! a yield is classified, which handler a yield is owed, which machine
//! primitive comes next, and how the advance ends. The surrounding program
//! performs each [`Action`] and hands back an [`Event`].

pub mod constants;
pub mod driver;
pub mod encoder;
pub mod lambda_state;
pub mod laws;
pub mod outcome;
pub mod registry;
pub mod replay;

pub use crate::driver::{Action, AdvanceRequest, DriverState, Event, Handler};
pub use crate::lambda_state::{
    CloneMode, MemoryBinding, RunAdvanceLambdaStatePaths, RuntimeOptions,
};
pub use crate::outcome::{
    AdvanceError, ResponseCategory, YieldClass, YieldEvent, YieldKind, YieldManualReason,
};
pub use crate::registry::{Callback, CallbackRegistry};
