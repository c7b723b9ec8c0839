//! Interactive regular-expression tester: the option flags, the in-band
//! command language, and the session logic that drives a regex engine.

mod clock;
pub mod command;
pub mod config;
pub mod decimal;
pub mod pattern;
pub mod session;
