//! The live configuration of a function-row panel: the layered configuration,
//! the colours and button layers it resolves to, and the bookkeeping of the
//! watch that tells when the user's file has changed.

pub mod button;
pub mod color;
pub mod config;
pub mod watch;
