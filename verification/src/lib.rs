//! Decision core of a tool that attaches a native module to a running process,
//! or detaches one from it.
//!
//! The crate performs no input or output. A driver opens processes, looks at
//! their modules and loads or unloads them; this crate decides, after each of
//! those steps, what happens next, and it builds the error that is reported
//! when a step fails.
//!
//! A driver makes a [`workflow::Workflow`] from what the operator asked for,
//! takes its pending [`protocol::Action`], performs it, and hands the
//! [`protocol::Event`] that tells how it went to `advance`, which answers
//! with the next action. It goes on until the action is to finish or to
//! abort, reports the failure if there is one, and ends with the exit status
//! of the workflow.
//!
//! - [`selector`]: how the operator names the target process.
//! - [`reference`]: the module reference, its file name and its two readings.
//! - [`protocol`]: the actions, the events and the notices for the operator.
//! - [`workflow`]: the states of an invocation and the steps between them.
//! - [`error`]: the failures, their descriptions and their reports.
//! - [`laws`]: what holds of every workflow, whatever the driver reports.
//! - [`text`]: texts as sequences of characters, and numbers in decimal.

pub mod error;
pub mod laws;
pub mod protocol;
pub mod reference;
pub mod selector;
pub mod text;
pub mod workflow;
