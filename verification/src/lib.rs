//! Core logic of a minimal desktop shell: a registry of live windows keyed by
//! an opaque identity, a dispatcher that turns inbound message strings into
//! typed lifecycle events, and the event-loop transitions that decide when the
//! process terminates. Native windowing and web rendering are collaborators
//! that live outside this crate; everything here is plain, verified state.

pub mod decimal;
pub mod dispatch;
pub mod event;
pub mod registry;
pub mod shell;
