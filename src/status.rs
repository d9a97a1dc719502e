//! What the backend's one-byte answer means, and the errors a relay call ends in.

use vstd::prelude::*;

verus! {

/// std's `io::Error`, carried unopened as the cause of a transport failure.
#[verifier::external_type_specification]
#[verifier::external_body]
pub struct ExIoError(std::io::Error);

/// Why a message did not reach the backend, or why the backend refused it.
#[derive(Debug)]
pub enum MoMMIError {
    /// Status 1: the backend did not accept the sender's identity bytes.
    IdBytes,
    /// Status 2: the backend could not parse the JSON body.
    Json,
    /// Status 3: the authentication tag did not match.
    Auth,
    /// Any other non-zero status.
    Unknown,
    /// Connecting, writing, flushing or reading failed.
    Io(std::io::Error),
}

/// The error that a non-zero status byte stands for.
pub open spec fn error_of_code(code: u8) -> MoMMIError {
    if code == 1 {
        MoMMIError::IdBytes
    } else if code == 2 {
        MoMMIError::Json
    } else if code == 3 {
        MoMMIError::Auth
    } else {
        MoMMIError::Unknown
    }
}

/// The outcome that a status byte stands for: 0 is success.
pub open spec fn outcome_of_code(code: u8) -> Result<(), MoMMIError> {
    if code == 0 {
        Ok(())
    } else {
        Err(error_of_code(code))
    }
}

impl From<u8> for MoMMIError {
    fn from(code: u8) -> (r: MoMMIError)
        ensures
            r == error_of_code(code),
    {
        match code {
            1 => MoMMIError::IdBytes,
            2 => MoMMIError::Json,
            3 => MoMMIError::Auth,
            _ => MoMMIError::Unknown,
        }
    }
}

impl vstd::std_specs::convert::FromSpecImpl<u8> for MoMMIError {
    open spec fn obeys_from_spec() -> bool {
        true
    }

    open spec fn from_spec(code: u8) -> MoMMIError {
        error_of_code(code)
    }
}

impl From<std::io::Error> for MoMMIError {
    fn from(error: std::io::Error) -> (r: MoMMIError)
        ensures
            r == MoMMIError::Io(error),
    {
        MoMMIError::Io(error)
    }
}

impl vstd::std_specs::convert::FromSpecImpl<std::io::Error> for MoMMIError {
    open spec fn obeys_from_spec() -> bool {
        true
    }

    open spec fn from_spec(error: std::io::Error) -> MoMMIError {
        MoMMIError::Io(error)
    }
}

/// Interprets the backend's status byte: 0 is success, 1 to 3 are the named
/// refusals, and every other value is an unknown backend error.
pub fn interpret(code: u8) -> (r: Result<(), MoMMIError>)
    ensures
        r == outcome_of_code(code),
{
    match code {
        0 => Ok(()),
        x => Err(MoMMIError::from(x)),
    }
}

/// Ends a relay call from what reading the status byte gave: the byte's
/// meaning, or the I/O error wrapped as it came.
pub fn conclude(read: Result<u8, std::io::Error>) -> (r: Result<(), MoMMIError>)
    ensures
        match read {
            Ok(code) => r == outcome_of_code(code),
            Err(e) => r == Err::<(), MoMMIError>(MoMMIError::Io(e)),
        },
{
    match read {
        Ok(code) => interpret(code),
        Err(e) => Err(MoMMIError::from(e)),
    }
}

/// The status byte decides the outcome alone: equal bytes give equal
/// outcomes, and every byte gives exactly one of success, the three named
/// refusals, or an unknown backend error.
pub proof fn lemma_interpret_total(code: u8)
    ensures
        outcome_of_code(code) is Ok <==> code == 0,
        code == 1 ==> outcome_of_code(code) == Err::<(), MoMMIError>(MoMMIError::IdBytes),
        code == 2 ==> outcome_of_code(code) == Err::<(), MoMMIError>(MoMMIError::Json),
        code == 3 ==> outcome_of_code(code) == Err::<(), MoMMIError>(MoMMIError::Auth),
        code > 3 ==> outcome_of_code(code) == Err::<(), MoMMIError>(MoMMIError::Unknown),
        !(outcome_of_code(code) matches Err(MoMMIError::Io(_))),
{
}

} // verus!
