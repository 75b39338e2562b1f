use vstd::prelude::*;
use vstd::utf8::*;

verus! {

/// `heapless::String`: text in a buffer of `N` bytes.
#[verifier::external_type_specification]
#[verifier::external_body]
pub struct ExBoundedString<const N: usize>(heapless::String<N>);

/// `heapless::Vec`: a list in a buffer of `N` items.
#[verifier::external_type_specification]
#[verifier::external_body]
#[verifier::reject_recursive_types(T)]
pub struct ExBoundedVec<T, const N: usize>(heapless::Vec<T, N>);

/// `heapless::LinearMap`: a map in a buffer of `N` entries, searched in
/// order.
#[verifier::external_type_specification]
#[verifier::external_body]
#[verifier::reject_recursive_types(K)]
#[verifier::reject_recursive_types(V)]
pub struct ExLinearMap<K, V, const N: usize>(heapless::LinearMap<K, V, N>);

/// Capacity in bytes of a command field: an id, a name or a parameter.
pub const FIELD_CAP: usize = 16;

/// Capacity in bytes of a rendered command line.
pub const LINE_CAP: usize = 64;

/// Largest number of parameters that a command carries.
pub const MAX_PARAMS: usize = 8;

/// The characters held by a field string.
pub uninterp spec fn field_text(s: heapless::String<16>) -> Seq<char>;

/// The characters held by a line string.
pub uninterp spec fn line_text(s: heapless::String<64>) -> Seq<char>;

/// The texts of the fields held by a parameter list, in order.
pub uninterp spec fn param_texts(v: heapless::Vec<heapless::String<16>, 8>) -> Seq<Seq<char>>;

/// Number of bytes that a character sequence takes when encoded as UTF-8.
pub open spec fn byte_len(s: Seq<char>) -> nat {
    encode_utf8(s).len()
}

/// Encoding distributes over concatenation.
pub proof fn lemma_encode_concat(a: Seq<char>, b: Seq<char>)
    ensures
        encode_utf8(a + b) == encode_utf8(a) + encode_utf8(b),
    decreases a.len(),
{
    if a.len() == 0 {
        assert(a + b == b);
        assert(encode_utf8(a) + encode_utf8(b) == encode_utf8(b));
    } else {
        lemma_encode_concat(a.drop_first(), b);
        assert((a + b).drop_first() == a.drop_first() + b);
        assert((a + b)[0] == a[0]);
        assert(encode_scalar(a[0] as u32) + (encode_utf8(a.drop_first()) + encode_utf8(b))
            == (encode_scalar(a[0] as u32) + encode_utf8(a.drop_first())) + encode_utf8(b));
    }
}

/// The byte length of a concatenation is the sum of the byte lengths.
pub proof fn lemma_byte_len_concat(a: Seq<char>, b: Seq<char>)
    ensures
        byte_len(a + b) == byte_len(a) + byte_len(b),
{
    lemma_encode_concat(a, b);
}

/// A single ASCII character takes one byte.
pub proof fn lemma_byte_len_ascii(c: char)
    requires
        (c as u32) < 0x80,
    ensures
        byte_len(seq![c]) == 1,
{
    reveal_with_fuel(encode_utf8, 2);
    assert(seq![c].drop_first() == Seq::<char>::empty());
}

/// A text of ASCII characters takes one byte for each.
pub proof fn lemma_ascii_len(s: Seq<char>)
    requires
        is_ascii_chars(s),
    ensures
        byte_len(s) == s.len(),
{
    is_ascii_chars_encode_utf8(s);
}

/// `heapless::String::<16>::new`: a field string that holds nothing.
#[verifier::external_body]
pub(crate) fn field_new() -> (s: heapless::String<16>)
    ensures
        field_text(s) == Seq::<char>::empty(),
{
    heapless::String::new()
}

/// `heapless::String::<16>::push_str`: appends all of `piece` when the
/// result fits into sixteen bytes, and otherwise changes nothing.
#[verifier::external_body]
pub(crate) fn field_push_str(s: &mut heapless::String<16>, piece: &str) -> (ok: bool)
    ensures
        ok == (byte_len(field_text(*old(s))) + byte_len(piece@) <= 16),
        ok ==> field_text(*final(s)) == field_text(*old(s)) + piece@,
        !ok ==> field_text(*final(s)) == field_text(*old(s)),
{
    s.push_str(piece).is_ok()
}

/// `heapless::String::<16>::as_str`: the held text as a string slice, which
/// never takes more than sixteen bytes.
#[verifier::external_body]
pub(crate) fn field_as_str(s: &heapless::String<16>) -> (r: &str)
    ensures
        r@ == field_text(*s),
        byte_len(r@) <= 16,
{
    s.as_str()
}

/// `heapless::String::<64>::new`: a line string that holds nothing.
#[verifier::external_body]
pub(crate) fn line_new() -> (s: heapless::String<64>)
    ensures
        line_text(s) == Seq::<char>::empty(),
{
    heapless::String::new()
}

/// `heapless::String::<64>::push_str`: appends all of `piece` when the
/// result fits into sixty-four bytes, and otherwise changes nothing.
#[verifier::external_body]
pub(crate) fn line_push_str(s: &mut heapless::String<64>, piece: &str) -> (ok: bool)
    ensures
        ok == (byte_len(line_text(*old(s))) + byte_len(piece@) <= 64),
        ok ==> line_text(*final(s)) == line_text(*old(s)) + piece@,
        !ok ==> line_text(*final(s)) == line_text(*old(s)),
{
    s.push_str(piece).is_ok()
}

/// `heapless::String::<64>::push`: appends one character when its encoding
/// still fits into sixty-four bytes, and otherwise changes nothing.
#[verifier::external_body]
pub(crate) fn line_push(s: &mut heapless::String<64>, c: char) -> (ok: bool)
    ensures
        ok == (byte_len(line_text(*old(s))) + byte_len(seq![c]) <= 64),
        ok ==> line_text(*final(s)) == line_text(*old(s)).push(c),
        !ok ==> line_text(*final(s)) == line_text(*old(s)),
{
    s.push(c).is_ok()
}

/// `heapless::String::<64>::as_str`: the held text as a string slice, which
/// never takes more than sixty-four bytes.
#[verifier::external_body]
pub(crate) fn line_as_str(s: &heapless::String<64>) -> (r: &str)
    ensures
        r@ == line_text(*s),
        byte_len(r@) <= 64,
{
    s.as_str()
}

/// A line that holds `text`, if it fits.
pub fn line_from(text: &str) -> (r: Option<heapless::String<64>>)
    ensures
        r is Some <==> byte_len(text@) <= 64,
        r is Some ==> line_text(r.unwrap()) == text@,
{
    let mut line = line_new();
    assert(byte_len(Seq::<char>::empty()) == 0);
    assert(Seq::<char>::empty() + text@ =~= text@);
    if line_push_str(&mut line, text) {
        Some(line)
    } else {
        None
    }
}

/// `heapless::Vec::<heapless::String<16>, 8>::new`: an empty parameter list.
#[verifier::external_body]
pub(crate) fn params_new() -> (v: heapless::Vec<heapless::String<16>, 8>)
    ensures
        param_texts(v) == Seq::<Seq<char>>::empty(),
{
    heapless::Vec::new()
}

/// `heapless::Vec::push` on a parameter list: appends the field while fewer
/// than eight are held, and otherwise changes nothing.
#[verifier::external_body]
pub(crate) fn params_push(
    v: &mut heapless::Vec<heapless::String<16>, 8>,
    item: heapless::String<16>,
) -> (ok: bool)
    ensures
        ok == (param_texts(*old(v)).len() < 8),
        ok ==> param_texts(*final(v)) == param_texts(*old(v)).push(field_text(item)),
        !ok ==> param_texts(*final(v)) == param_texts(*old(v)),
{
    v.push(item).is_ok()
}

/// `heapless::Vec::len` on a parameter list: how many fields it holds, which
/// is never more than eight.
#[verifier::external_body]
pub(crate) fn params_len(v: &heapless::Vec<heapless::String<16>, 8>) -> (n: usize)
    ensures
        n == param_texts(*v).len(),
        n <= 8,
{
    v.len()
}

/// Indexing a parameter list (`Deref` to a slice, then `Index`): the field
/// at position `i`.
#[verifier::external_body]
pub(crate) fn params_get(v: &heapless::Vec<heapless::String<16>, 8>, i: usize) -> (r:
    &heapless::String<16>)
    requires
        i < param_texts(*v).len(),
    ensures
        field_text(*r) == param_texts(*v)[i as int],
{
    &v[i]
}

} // verus!
