//! Classification of a finished command's captured output.

use vstd::prelude::*;

use crate::decode::{decode_lossy, decoded};

verus! {

/// The outcome of one command that the interpreter ran to completion.
///
/// `Success` carries the decoded standard-output text of a command that
/// exited with code zero. `Failure` carries diagnostic text for a command
/// that exited non-zero or abnormally: its decoded standard-error if that
/// is non-empty, otherwise its decoded standard-output, otherwise empty
/// text. A command that could not be spawned at all yields neither; that
/// is the host's distinct spawn-failure channel.
#[derive(Debug, PartialEq, Eq)]
pub enum CommandResult {
    Success(String),
    Failure(String),
}

impl CommandResult {
    /// True of the `Success` variant.
    pub open spec fn is_success(self) -> bool {
        match self {
            CommandResult::Success(_) => true,
            CommandResult::Failure(_) => false,
        }
    }

    /// The text carried by either variant.
    pub open spec fn text(self) -> Seq<char> {
        match self {
            CommandResult::Success(t) => t@,
            CommandResult::Failure(t) => t@,
        }
    }
}

/// Classifies a command by its exit status and its two decoded streams.
///
/// Exit code zero is success and returns the standard-output text; any
/// other exit is failure and returns the standard-error text if non-empty,
/// else the standard-output text (so a failed command with both streams
/// empty reports empty text).
pub fn classify(exit_ok: bool, stdout: String, stderr: String) -> (r: CommandResult)
    ensures
        r.is_success() == exit_ok,
        exit_ok ==> r.text() == stdout@,
        !exit_ok && stderr@.len() > 0 ==> r.text() == stderr@,
        !exit_ok && stderr@.len() == 0 ==> r.text() == stdout@,
        !exit_ok && stdout@.len() == 0 && stderr@.len() == 0 ==> r.text().len() == 0,
{
    if exit_ok {
        CommandResult::Success(stdout)
    } else if !stderr.as_str().is_empty() {
        CommandResult::Failure(stderr)
    } else {
        CommandResult::Failure(stdout)
    }
}

/// Classifies a command straight from its captured byte streams.
///
/// Both streams are decoded as text first, with ill-formed byte sequences
/// replaced rather than rejected, so no stream content can make the call
/// fail; the classification then goes by the exit status exactly as in
/// [`classify`].
pub fn classify_output(exit_ok: bool, stdout: &Vec<u8>, stderr: &Vec<u8>) -> (r: CommandResult)
    ensures
        r.is_success() == exit_ok,
        exit_ok ==> r.text() == decoded(stdout@),
        !exit_ok && decoded(stderr@).len() > 0 ==> r.text() == decoded(stderr@),
        !exit_ok && decoded(stderr@).len() == 0 ==> r.text() == decoded(stdout@),
        !exit_ok && stdout@.len() == 0 && stderr@.len() == 0 ==> r.text().len() == 0,
{
    let out_text = decode_lossy(stdout);
    let err_text = decode_lossy(stderr);
    proof {
        if stdout@.len() == 0 {
            crate::decode::lemma_decode_utf8_empty(stdout@);
        }
        if stderr@.len() == 0 {
            crate::decode::lemma_decode_utf8_empty(stderr@);
        }
    }
    classify(exit_ok, out_text, err_text)
}

} // verus!
