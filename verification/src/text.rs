use vstd::prelude::*;

verus! {

/// Calls `String::push`, which appends one character to the string.
#[verifier::external_body]
pub(crate) fn push_char(s: &mut String, c: char)
    ensures
        final(s)@ == old(s)@.push(c),
{
    s.push(c)
}

/// The ASCII character that a byte stands for.
pub open spec fn byte_char(b: u8) -> char {
    b as char
}

/// The characters that a sequence of bytes stands for, one per byte.
pub open spec fn bytes_as_chars(bytes: Seq<u8>) -> Seq<char> {
    bytes.map_values(|b: u8| byte_char(b))
}

/// The characters a sequence of bytes stands for are as many as the bytes,
/// in the same order, each with its byte's value as character code.
pub proof fn lemma_bytes_as_chars(bytes: Seq<u8>)
    ensures
        bytes_as_chars(bytes).len() == bytes.len(),
        forall|i: int| 0 <= i < bytes.len() ==> #[trigger] bytes_as_chars(bytes)[i] as u32 == bytes[i] as u32,
{
}

/// Builds a string holding one character per byte, each byte read as a
/// character code.
pub fn string_from_bytes(bytes: &[u8]) -> (s: String)
    ensures
        s@ == bytes_as_chars(bytes@),
        s@.len() == bytes@.len(),
        forall|i: int| 0 <= i < bytes@.len() ==> #[trigger] s@[i] as u32 == bytes@[i] as u32,
{
    let mut s = String::new();
    let n = bytes.len();
    for i in 0..n
        invariant
            n == bytes@.len(),
            s@ == bytes_as_chars(bytes@.take(i as int)),
    {
        let c: char = bytes[i] as char;
        push_char(&mut s, c);
        assert(bytes@.take(i + 1) == bytes@.take(i as int).push(bytes@[i as int]));
    }
    assert(bytes@.take(n as int) == bytes@);
    s
}

/// A copy of an optional text value.
pub fn clone_text(value: &Option<String>) -> (copy: Option<String>)
    ensures
        copy == *value,
{
    match value {
        Some(s) => Some(s.clone()),
        None => None,
    }
}

/// The lowercase form of a string, as `str::to_lowercase` computes it
/// (Unicode's lowercase mapping, in which a capital sigma's form depends on
/// the characters around it).
pub uninterp spec fn lowercase_of(s: Seq<char>) -> Seq<char>;

/// Calls `str::to_lowercase`. Its result depends on the string alone and is
/// named `lowercase_of`; the Unicode mapping behind that name is not spelled
/// out here.
#[verifier::external_body]
pub(crate) fn to_lowercase(s: &str) -> (lowered: String)
    ensures
        lowered@ == lowercase_of(s@),
{
    s.to_lowercase()
}

} // verus!
