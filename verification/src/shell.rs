//! Selection of the platform command interpreter.

use vstd::prelude::*;

verus! {

/// The host operating-system family, which decides the interpreter.
#[derive(Debug, Clone, Copy, PartialEq, Eq, Structural)]
pub enum OsFamily {
    Windows,
    Posix,
}

/// The interpreter program and the flag that makes it run the following
/// argument as one command line: `cmd /C` on the Windows family, `sh -c`
/// on the POSIX family. The command text itself is passed through to that
/// interpreter verbatim, with no validation; what it then does runs with
/// the host's privileges.
pub fn interpreter(family: OsFamily) -> (r: (&'static str, &'static str))
    ensures
        family is Windows ==> r.0@ == "cmd"@ && r.1@ == "/C"@,
        family is Posix ==> r.0@ == "sh"@ && r.1@ == "-c"@,
{
    match family {
        OsFamily::Windows => ("cmd", "/C"),
        OsFamily::Posix => ("sh", "-c"),
    }
}

} // verus!
