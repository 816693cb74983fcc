//! What the build of the toolkit's bindings works out from its surroundings.
//!
//! Running a program and reading the build's configuration are the caller's
//! part; these functions take what it found.

use vstd::prelude::*;
use crate::text::from_utf8_lossy;
use crate::text::lossy_utf8;
use crate::text::trim;
use crate::text::trimmed;

verus! {

/// What a program wrote to its standard output, or nothing where it could not
/// be run.
pub open spec fn written(output: Option<&[u8]>) -> Seq<u8> {
    match output {
        Some(bytes) => bytes@,
        None => Seq::empty(),
    }
}

/// Whether a program can be invoked, judged by what it wrote when asked for
/// its version: it is there if it ran and wrote something.
pub fn has_program(output: Option<&[u8]>) -> (found: bool)
    ensures
        found == (written(output).len() > 0),
{
    match output {
        Some(bytes) => bytes.len() > 0,
        None => false,
    }
}

/// The output of a program as text: read as UTF-8 with replacement of what is
/// not, then trimmed. A program that could not be run gives the empty output.
pub fn proc_output(output: Option<&[u8]>) -> (text: String)
    ensures
        text@ == trimmed(lossy_utf8(written(output))),
{
    let decoded = match output {
        Some(bytes) => from_utf8_lossy(bytes),
        None => {
            let nothing: Vec<u8> = Vec::new();
            from_utf8_lossy(nothing.as_slice())
        },
    };
    trim(decoded.as_str())
}

/// Whether to link the C runtime statically: when the target has it static,
/// or when the build asks for it.
pub fn use_static_msvcrt(crt_static: bool, static_msvcrt: bool) -> (linked: bool)
    ensures
        linked == (crt_static || static_msvcrt),
{
    crt_static || static_msvcrt
}

} // verus!
