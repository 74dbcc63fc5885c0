//! A netcat-style tool's verified core: argument validation, port text,
//! the byte pump, address selection for connecting and listening, and the
//! diagnostic messages printed in verbose mode.

pub mod cli;
pub mod decimal;
pub mod pump;
pub mod net;
pub mod settle;
pub mod verbose;
