use vstd::prelude::*;

verus! {

/// What `String::from_utf8` makes of a byte sequence: the decoded text where
/// the bytes are valid UTF-8, and nothing otherwise. The outcome depends on
/// the bytes alone.
pub uninterp spec fn utf8_decode_of(bytes: Seq<u8>) -> Option<Seq<char>>;

/// Relies on `alloc::string::String::from_utf8`: it succeeds exactly on valid
/// UTF-8 input, and the text it returns is a function of the bytes alone.
#[verifier::external_body]
pub(crate) fn string_from_utf8(bytes: Vec<u8>) -> (r: Option<String>)
    ensures
        r matches Some(s) ==> utf8_decode_of(bytes@) == Some(s@),
        r is None ==> utf8_decode_of(bytes@) is None,
{
    String::from_utf8(bytes).ok()
}

} // verus!
