//! The per-invocation handler core: turn an inbound body into a generation
//! command, and turn the engine's outcome into a response or a reported
//! error. The surrounding runtime performs the actual transport and the
//! engine call; every decision stands here.

use vstd::prelude::*;
use vstd::string::StringExecFns;
use crate::request::{DecodeError, decode_request, spec_decode_text, spec_decode_error_message};
use crate::command::{GenerationCommand, spec_to_maze_args};

verus! {

/// The inbound message body, as the transport hands it over: text, raw
/// bytes, or nothing.
#[derive(Clone, PartialEq, Eq, Debug)]
pub enum RequestBody {
    Empty,
    Text(String),
    Binary(Vec<u8>),
}

/// The engine's failure report. It is opaque to this layer: never inspected
/// for recovery, only surfaced as a failed invocation.
#[derive(Clone, Copy, PartialEq, Eq, Debug)]
pub struct EngineError;

/// The tagged output the engine returns: the maze encoded as raw bytes, or
/// rendered as ASCII text.
#[derive(Clone, PartialEq, Eq, Debug)]
pub enum EngineOutput {
    Bin(Vec<u8>),
    Ascii(String),
}

/// Why an invocation failed.
#[derive(Clone, Copy, PartialEq, Eq, Debug)]
pub enum HandlerError {
    /// The inbound body is not text.
    InvalidBody,
    /// The body text did not decode as a request.
    Decode(DecodeError),
    /// The engine reported failure; fatal for this invocation.
    EngineFailure,
    /// The engine returned an output variant this layer cannot surface.
    UnsupportedOutput,
}

/// The descriptive message a failed invocation reports.
pub open spec fn spec_handler_error_message(e: HandlerError) -> Seq<char> {
    match e {
        HandlerError::InvalidBody => "Invalid request body"@,
        HandlerError::Decode(d) => spec_decode_error_message(d),
        HandlerError::EngineFailure => "Failure generating maze"@,
        HandlerError::UnsupportedOutput => "Unsupported output type"@,
    }
}

impl HandlerError {
    /// A descriptive message of this failure, surfaced to the caller.
    pub fn message(&self) -> (r: String)
        ensures
            r@ == spec_handler_error_message(*self),
    {
        match self {
            HandlerError::InvalidBody => String::from_str("Invalid request body"),
            HandlerError::Decode(d) => d.message(),
            HandlerError::EngineFailure => String::from_str("Failure generating maze"),
            HandlerError::UnsupportedOutput => String::from_str("Unsupported output type"),
        }
    }
}

/// The meaning of preparing a command: only a text body is accepted; its
/// text must decode as a request, whose command is then derived.
pub open spec fn spec_prepare(body: RequestBody) -> Result<GenerationCommand, HandlerError> {
    match body {
        RequestBody::Text(s) => match spec_decode_text(s@) {
            Ok(req) => Ok(spec_to_maze_args(req)),
            Err(e) => Err(HandlerError::Decode(e)),
        },
        _ => Err(HandlerError::InvalidBody),
    }
}

/// The meaning of dispatching the engine's outcome: binary output becomes
/// the response bytes; any failure is fatal; any other output variant is
/// unsupported.
pub open spec fn spec_respond(outcome: Result<EngineOutput, EngineError>) -> Result<
    Vec<u8>,
    HandlerError,
> {
    match outcome {
        Ok(EngineOutput::Bin(bytes)) => Ok(bytes),
        Ok(EngineOutput::Ascii(_)) => Err(HandlerError::UnsupportedOutput),
        Err(_) => Err(HandlerError::EngineFailure),
    }
}

/// Decode the inbound body and derive the generation command. A non-text
/// body is rejected before any decoding; a decode failure carries the
/// original error for diagnostics.
pub fn prepare(body: &RequestBody) -> (r: Result<GenerationCommand, HandlerError>)
    ensures
        r == spec_prepare(*body),
{
    let s = match body {
        RequestBody::Text(s) => s,
        _ => {
            return Err(HandlerError::InvalidBody);
        },
    };
    match decode_request(s.as_str()) {
        Ok(req) => Ok(req.to_maze_args()),
        Err(e) => Err(HandlerError::Decode(e)),
    }
}

/// Map the engine's outcome to the response bytes or a reported error.
pub fn respond(outcome: Result<EngineOutput, EngineError>) -> (r: Result<Vec<u8>, HandlerError>)
    ensures
        r == spec_respond(outcome),
{
    match outcome {
        Ok(EngineOutput::Bin(bytes)) => Ok(bytes),
        Ok(EngineOutput::Ascii(_)) => Err(HandlerError::UnsupportedOutput),
        Err(_) => Err(HandlerError::EngineFailure),
    }
}

/// A non-text inbound body is rejected as `InvalidBody`: no decoding is
/// attempted and no command is derived.
pub proof fn lemma_non_text_body_rejected(body: RequestBody)
    requires
        !(body is Text),
    ensures
        spec_prepare(body) == Err::<GenerationCommand, HandlerError>(HandlerError::InvalidBody),
{
}

/// ASCII engine output is never surfaced as a success: the handler reports
/// `UnsupportedOutput` instead.
pub proof fn lemma_ascii_output_unsupported(outcome: Result<EngineOutput, EngineError>)
    requires
        outcome matches Ok(EngineOutput::Ascii(_)),
    ensures
        spec_respond(outcome) == Err::<Vec<u8>, HandlerError>(HandlerError::UnsupportedOutput),
{
}

} // verus!
