//! Coordination logic for a desktop window that asks the operating system to
//! verify the user's identity and reacts to the answer.
//!
//! The crate holds no operating-system call. Every component is a
//! transition function from a state and an event to the next state and the
//! action that the caller has to perform; the caller performs the action
//! and comes back with the event that tells how it went.
//!
//! - [`platform`]: the plain values that stand for what the platform hands over.
//! - [`requester`]: asks the verifier, once, and ends with one outcome.
//! - [`notifier`]: shows a failure to the user, then notifies the window.
//! - [`pipeline`]: requester and notifier as the one machine of the background context.
//! - [`handler`]: what the window does with each message.
//! - [`controller`]: startup, message loop and exit code, in one lifecycle record.
//! - [`process`]: both contexts and the message queue together, for the laws that span them.
//! - [`trace`]: runs of a machine over a sequence of events.

pub mod controller;
pub mod handler;
pub mod notifier;
pub mod pipeline;
pub mod platform;
pub mod process;
pub mod requester;
pub mod trace;
