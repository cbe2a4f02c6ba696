//! Sink implementations for testing that simulate different types of errors.
//!
//! A sink accepts items through a three-stage protocol: accept an item
//! (`start_send`), drive buffered work to completion (`poll_complete`), and
//! shut down (`close`). Code that feeds a sink has an error-handling branch
//! for each stage; each sink here fails deterministically at exactly one
//! stage, so that one branch can be exercised in isolation.
//!
//! ## Sinks:
//! - `StartSendErrSink`: returns an error on `start_send`
//! - `PollCompleteErrSink`: returns an error on `poll_complete`
//! - `CloseErrSink`: returns an error on `close`

pub mod protocol;
pub mod start_send_error_sink;
pub mod poll_complete_error_sink;
pub mod close_error_sink;

pub use start_send_error_sink::StartSendErrSink;
pub use poll_complete_error_sink::PollCompleteErrSink;
pub use close_error_sink::CloseErrSink;
