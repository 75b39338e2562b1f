use crate::bounded::{byte_len, line_from, line_text};
use crate::error::Error;
use vstd::prelude::*;

verus! {

/// Reads a parameter as it came over the wire. Parameters travel as plain
/// text, so this is the text itself, if it fits into a line; a longer one
/// is refused with `InvalidUtf8`.
pub fn b64_decode(input: &str) -> (r: Result<heapless::String<64>, Error>)
    ensures
        match r {
            Ok(line) => byte_len(input@) <= 64 && line_text(line) == input@,
            Err(e) => byte_len(input@) > 64 && e == Error::InvalidUtf8,
        },
{
    match line_from(input) {
        Some(line) => Ok(line),
        None => Err(Error::InvalidUtf8),
    }
}

/// Writes a parameter as it goes over the wire: the text itself, which has
/// to fit into a line.
pub fn b64_encode(input: &str) -> (line: heapless::String<64>)
    requires
        byte_len(input@) <= 64,
    ensures
        line_text(line) == input@,
{
    line_from(input).unwrap()
}

} // verus!
