//! A graceful-shutdown coordinator for a request-serving host: a one-shot
//! trigger, an ordered registry of cleanup hooks, a drain state machine with
//! a hard timeout, and the decisions of the dispatch loop.

pub mod signal;
pub mod hooks;
pub mod coordinator;
pub mod laws;
pub mod dispatch;
pub mod handler;

pub use signal::SignalKind;
pub use hooks::HookRegistry;
pub use coordinator::{
    Action, Coordinator, Event, Phase, ShutdownConfig, ShutdownState, CLEAN_EXIT_CODE, TIMEOUT_EXIT_CODE,
};
pub use dispatch::{DispatchLoop, HandlerError, Report, Response, FATAL_EXIT_CODE};
pub use handler::{function_handler, greeting_response, payload, OK_STATUS};
