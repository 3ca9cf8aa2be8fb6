use vstd::prelude::*;

verus! {

/// Relies on `String::push`: the character is appended at the end.
#[verifier::external_body]
pub(crate) fn push_char(s: &mut String, c: char)
    ensures
        final(s)@ == old(s)@.push(c),
{
    s.push(c);
}

/// Relies on `char::from_u32`: a valid Unicode scalar value comes back as
/// the character with that code, anything else as `None`.
#[verifier::external_body]
pub(crate) fn char_from_u32(code: u32) -> (r: Option<char>)
    ensures
        r.is_some() == (code < 0xD800 || (0xE000 <= code && code < 0x11_0000)),
        r.is_some() ==> r.unwrap() as u32 == code,
{
    char::from_u32(code)
}

} // verus!
