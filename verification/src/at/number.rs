use vstd::prelude::*;

verus! {

/// Whether a character is one of the digits `0` to `9`.
pub open spec fn is_digit(c: char) -> bool {
    0x30 <= c as u32 <= 0x39
}

/// The number that a run of digits stands for in base ten.
pub open spec fn digits_value(d: Seq<char>) -> nat
    decreases d.len(),
{
    if d.len() == 0 {
        0
    } else {
        digits_value(d.drop_last()) * 10 + ((d.last() as u32 - 0x30) as nat)
    }
}

/// The text without one leading `+`.
pub open spec fn unsigned_part(s: Seq<char>) -> Seq<char> {
    if s.len() > 0 && s[0] == '+' {
        s.drop_first()
    } else {
        s
    }
}

/// The number that a text stands for: an optional `+`, then at least one
/// digit and nothing else, with a value of at most `max`.
pub open spec fn decimal(s: Seq<char>, max: nat) -> Option<nat> {
    let d = unsigned_part(s);
    if d.len() > 0 && (forall|i: int| 0 <= i < d.len() ==> is_digit(#[trigger] d[i]))
        && digits_value(d) <= max {
        Some(digits_value(d))
    } else {
        None
    }
}

/// Whether each of the texts is a number of at most `max`.
pub open spec fn all_decimal(params: Seq<Seq<char>>, max: nat) -> bool {
    forall|i: int| 0 <= i < params.len() ==> decimal(#[trigger] params[i], max) is Some
}

/// `str::parse::<u8>`: the number that the text stands for in base ten. The
/// text is an optional `+` and then digits only; an empty text, any other
/// character and a value over 255 are refused.
#[verifier::external_body]
pub(crate) fn parse_u8(s: &str) -> (r: Option<u8>)
    ensures
        r is Some <==> decimal(s@, 255) is Some,
        r is Some ==> r.unwrap() as nat == decimal(s@, 255).unwrap(),
{
    s.parse::<u8>().ok()
}

/// `str::parse::<u32>`: the number that the text stands for in base ten.
/// The text is an optional `+` and then digits only; an empty text, any
/// other character and a value over 4294967295 are refused.
#[verifier::external_body]
pub(crate) fn parse_u32(s: &str) -> (r: Option<u32>)
    ensures
        r is Some <==> decimal(s@, 0xFFFF_FFFF) is Some,
        r is Some ==> r.unwrap() as nat == decimal(s@, 0xFFFF_FFFF).unwrap(),
{
    s.parse::<u32>().ok()
}

} // verus!
