//! The decisions of a pipeline run: decode the text, then parse, then emit.
//! The parser and the emitter are run by the caller, which hands each
//! stage's status to the matching decision and carries out what it says.
use vstd::prelude::*;
use vstd::string::StringExecFns;
use vstd::string::StringSliceAdditionalSpecFns;
use vstd::utf8::valid_utf8;

use crate::outcome::EmitOutput;
use crate::outcome::JsparagusError;

verus! {

broadcast use vstd::utf8::encode_utf8_valid_utf8;

/// Relies on `std::str::from_utf8`: the bytes read as text when they are
/// valid UTF-8, and nothing otherwise.
#[verifier::external_body]
fn utf8_text(bytes: &[u8]) -> (r: Option<&str>)
    ensures
        match r {
            Some(s) => s.spec_bytes() == bytes@,
            None => !valid_utf8(bytes@),
        },
{
    std::str::from_utf8(bytes).ok()
}

/// The diagnostic of an input that is not valid UTF-8.
pub open spec fn invalid_text_message() -> Seq<char> {
    "Invalid UTF8"@
}

/// The line written to the trace channel for an unsupported construct.
pub open spec fn unimplemented_trace(message: Seq<char>) -> Seq<char> {
    "Unimplemented: "@ + message
}

/// How the parser finished.
#[derive(Debug)]
pub enum ParseStatus {
    /// The text parsed; the caller holds the tree.
    Parsed,
    /// The text uses a construct the parser does not support yet.
    NotImplemented(String),
    /// The text is not a valid script; the parser's message says why.
    Failed(String),
}

/// How the emitter finished.
#[derive(Debug)]
pub enum EmitStatus {
    Emitted(EmitOutput),
    /// The tree uses a construct the emitter does not support yet.
    NotImplemented(String),
}

/// What the caller does next.
#[derive(Debug)]
pub enum Step {
    /// Hand the parsed tree to the emitter.
    Emit,
    /// Stop the run with this result.
    Finish(Result<EmitOutput, JsparagusError>),
}

/// The next step, and a line for the trace channel if there is one.
#[derive(Debug)]
pub struct Decision {
    pub step: Step,
    pub trace: Option<String>,
}

/// Reads the host's bytes as text. Bytes that are not valid UTF-8 end the
/// run with a generic error before any stage runs.
pub fn decode_source(bytes: &[u8]) -> (r: Result<&str, JsparagusError>)
    ensures
        r is Ok <==> valid_utf8(bytes@),
        match r {
            Ok(text) => text.spec_bytes() == bytes@,
            Err(JsparagusError::GenericError(message)) => message@ == invalid_text_message(),
            Err(JsparagusError::NotImplemented) => false,
        },
{
    match utf8_text(bytes) {
        Some(text) => Ok(text),
        None => {
            proof {
                reveal_strlit("Invalid UTF8");
            }
            Err(JsparagusError::GenericError(String::from_str("Invalid UTF8")))
        },
    }
}

fn trace_line(message: &String) -> (r: String)
    ensures
        r@ == unimplemented_trace(message@),
{
    proof {
        reveal_strlit("Unimplemented: ");
    }
    String::from_str("Unimplemented: ").concat(message.as_str())
}

/// After parsing: a parsed script goes on to the emitter; an unsupported
/// construct ends the run as not implemented, with a trace line; any other
/// parse error ends it as a generic error carrying the parser's message.
pub fn after_parse(status: ParseStatus) -> (r: Decision)
    ensures
        match status {
            ParseStatus::Parsed => r.step is Emit && r.trace is None,
            ParseStatus::NotImplemented(message) => {
                &&& r.step == Step::Finish(Err(JsparagusError::NotImplemented))
                &&& r.trace matches Some(line) && line@ == unimplemented_trace(message@)
            },
            ParseStatus::Failed(message) => {
                &&& r.step matches Step::Finish(Err(JsparagusError::GenericError(m)))
                &&& m@ == message@
                &&& r.trace is None
            },
        },
{
    match status {
        ParseStatus::Parsed => Decision { step: Step::Emit, trace: None },
        ParseStatus::NotImplemented(message) => Decision {
            step: Step::Finish(Err(JsparagusError::NotImplemented)),
            trace: Some(trace_line(&message)),
        },
        ParseStatus::Failed(message) => Decision {
            step: Step::Finish(Err(JsparagusError::GenericError(message))),
            trace: None,
        },
    }
}

/// After emitting: the emitter's output ends the run with success; an
/// unsupported construct ends it as not implemented, with a trace line.
pub fn after_emit(status: EmitStatus) -> (r: Decision)
    ensures
        match status {
            EmitStatus::Emitted(out) => r.step == Step::Finish(Ok(out)) && r.trace is None,
            EmitStatus::NotImplemented(message) => {
                &&& r.step == Step::Finish(Err(JsparagusError::NotImplemented))
                &&& r.trace matches Some(line) && line@ == unimplemented_trace(message@)
            },
        },
{
    match status {
        EmitStatus::Emitted(out) => Decision { step: Step::Finish(Ok(out)), trace: None },
        EmitStatus::NotImplemented(message) => Decision {
            step: Step::Finish(Err(JsparagusError::NotImplemented)),
            trace: Some(trace_line(&message)),
        },
    }
}

} // verus!
