//! Run-one-command backend: classify a finished shell command's captured
//! output into a success or failure text, and select the platform shell
//! that a host should spawn.
//!
//! The library holds the decision logic only. Spawning the interpreter,
//! waiting for it, and presenting the resulting text are the host's work:
//! the host hands the library the exit status and the captured byte
//! streams, and gets back a [`outcome::CommandResult`]. Running arbitrary
//! command text with the host's privileges is the intended capability of
//! any program built on this library, not an accident.

pub mod decode;
pub mod outcome;
pub mod shell;
