//! Construction of the command line for an external OpenVPN binary, and a
//! verified model of the supervisor that drives such a process from spawn to
//! confirmed exit.
//!
//! The argument builder is a pure function from a configuration to an ordered
//! token list; the supervisor model captures the two-phase (graceful, then
//! forced) shutdown protocol as a state machine whose transitions are fully
//! specified.

pub mod command;
pub mod decimal;
pub mod render;
pub mod supervisor;
