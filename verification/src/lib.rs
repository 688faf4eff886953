//! Core logic of a minimal graphical login greeter.
//!
//! The crate verifies the decision-making heart of the greeter: the
//! login state machine that collects a fixed-length credential and
//! sequences input, validation and session hand-off
//! ([`app`]); the native-authentication conversation and call-ordering
//! rules, including rollback on partial failure ([`pam_wrapper`]);
//! the display-server supervision and session-environment derivation
//! ([`process_starts`]); and the frame-loop dispatch and teardown
//! ordering ([`dispatch`]).
//!
//! Everything that touches the outside world - the windowing system,
//! the native authentication library, process spawning - lives in the
//! surrounding application, which performs exactly the calls these
//! verified components direct it to make.

pub mod app;
pub mod dispatch;
pub mod pam_wrapper;
pub mod process_starts;
