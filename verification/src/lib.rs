//! A small command-line library: a verb and its positional arguments are
//! resolved to one of a fixed set of operations, and each operation either
//! yields a result string at once or asks the caller to perform one
//! file-system or network action and hand the outcome back.

pub mod ascii;
pub mod cli;
pub mod command;
