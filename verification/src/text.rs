use vstd::prelude::*;

verus! {

/// The number of bytes of the UTF-8 encoding of `s`, as `String::len` counts
/// them.
pub open spec fn byte_len(s: String) -> usize {
    vstd::utf8::encode_utf8(s@).len() as usize
}

/// Whether `s` takes at most `max` bytes.
pub fn fits(s: &String, max: usize) -> (r: bool)
    ensures
        r == (byte_len(*s) <= max),
{
    s.as_str().len() <= max
}

/// Whether `s` holds no characters.
pub fn is_empty(s: &String) -> (r: bool)
    ensures
        r == (s@.len() == 0),
{
    s.as_str().is_empty()
}

} // verus!
