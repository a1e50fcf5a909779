//! Runtime core for a multiplexing network server with graceful shutdown.
//!
//! The coordination layer is verified: a shared shutdown flag, a holder
//! count that tracks outstanding units of work, and the decision logic of
//! the accept and stream-dispatch loops. Transport, TLS and frame-level
//! I/O are external collaborators and stay outside this crate's proofs.

pub mod graceful_shutdown;
pub mod server;
pub mod shutdown;

pub use graceful_shutdown::{DrainSignal, GracefulShutdown, ShutdownToken, TokenHold};
pub use server::{
    AcceptAction, AcceptEvent, Admission, HandlerOutcome, StreamAction, StreamEvent,
    StreamHandlerTask,
};
pub use shutdown::{ShutDownState, SignalShutdown, WaitGroup};
