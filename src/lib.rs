//! A one-shot logging initializer: it decides the severity each namespace
//! logs at, lays out each console or file line, turns a panic into log
//! records, and guards against configuring the process twice.

pub mod severity;
pub mod routing;
pub mod guard;
pub mod panic_bridge;
pub mod line;
