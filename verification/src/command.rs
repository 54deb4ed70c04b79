//! The flat shape in which the outcome of a command leaves the API.

use vstd::prelude::*;
use vstd::string::StringExecFns;

use crate::error::Error;

verus! {

/// A failure as the API shows it: an opaque code and nothing else.
#[derive(Debug, Clone)]
pub struct CommandError {
    pub code: String,
}

/// The answer to a command: its data, or the failure.
#[derive(Debug)]
pub enum CommandResult {
    Success { data: serde_json::Value },
    Error { error: CommandError },
}

impl CommandError {
    /// The API form of a failure: its code.
    pub fn new(failure: Error) -> (shown: CommandError)
        ensures
            shown.code@ == failure.code_text(),
    {
        CommandError { code: String::from_str(failure.code()) }
    }
}

/// The answer to a command, given how the repository took it: its data as
/// they are, or the code of the failure.
pub fn api_command(outcome: Result<serde_json::Value, Error>) -> (answer: CommandResult)
    ensures
        match outcome {
            Ok(data) => answer == (CommandResult::Success { data }),
            Err(failure) => answer matches CommandResult::Error { error }
                && error.code@ == failure.code_text(),
        },
{
    match outcome {
        Ok(data) => CommandResult::Success { data },
        Err(failure) => CommandResult::Error { error: CommandError::new(failure) },
    }
}

/// The body of the answer to a preflight request for the command endpoint:
/// empty.
pub fn api_command_options() -> (body: &'static str)
    ensures
        body@ == Seq::<char>::empty(),
{
    proof {
        reveal_strlit("");
    }
    let body = "";
    assert(body@.len() == 0);
    body
}

} // verus!
