//! The engine gateway's value-level half.
//!
//! Each translate or display request runs one engine invocation: a transient
//! subprocess that takes the markup on standard input. Spawning and piping
//! are the unverified shell's work; what stands here is the error taxonomy
//! of an invocation and the decoding of the output it hands back.

use vstd::prelude::*;

verus! {

/// Why one engine invocation failed. A failed invocation is logged and
/// swallowed: the request yields no reply and the connection continues.
#[derive(PartialEq, Eq, Structural, Clone, Copy, Debug)]
pub enum EngineError {
    /// The engine process could not be started.
    SpawnFailed,
    /// Writing the markup to the engine, or reading its output, failed.
    IoFailed,
    /// The engine's output was not valid text.
    DecodeFailed,
}

/// The text that a byte sequence decodes to as UTF-8, or `None` when it is
/// not valid UTF-8.
pub uninterp spec fn utf8_decode(bytes: Seq<u8>) -> Option<Seq<char>>;

/// Relies on `String::from_utf8`: returns the decoded string exactly when
/// the bytes are valid UTF-8, and an error otherwise.
#[verifier::external_body]
fn string_from_utf8(bytes: Vec<u8>) -> (r: Option<String>)
    ensures
        r is Some <==> utf8_decode(bytes@) is Some,
        r matches Some(s) ==> utf8_decode(bytes@) == Some(s@),
{
    String::from_utf8(bytes).ok()
}

/// The rendered text of a translate invocation, decoded from the raw bytes
/// the engine wrote to its standard output. Output that is not valid text
/// is the decode failure of the invocation.
pub fn engine_output_text(stdout: Vec<u8>) -> (r: Result<String, EngineError>)
    ensures
        r matches Ok(s) ==> utf8_decode(stdout@) == Some(s@),
        r matches Err(e) ==> e == EngineError::DecodeFailed && utf8_decode(stdout@) is None,
{
    match string_from_utf8(stdout) {
        Some(s) => Ok(s),
        None => Err(EngineError::DecodeFailed),
    }
}

} // verus!
