//! A small line-oriented text editor core in the style of the classic Unix
//! line editors.
//!
//! The crate covers the command-line scanner, the address-expression and
//! command grammars, the address resolver, and the editor state machine.
//! All file and console input/output stays outside: commands that touch the
//! file system are answered with an [`editor::Action`] value that tells the
//! caller what to read or write, and the caller reports the outcome back.

pub mod address;
pub mod command;
pub mod editor;
pub mod errors;
pub mod laws;
pub mod scanner;
