//! Conversion of byte strings to null-terminated C strings.
//!
//! Every path or text argument handed to a native call must be
//! null-terminated, and the conversion must fail — rather than truncate —
//! when the input already contains a null byte.

use vstd::prelude::*;

use crate::error::PdError;

verus! {

/// True when the byte sequence contains a null byte.
pub open spec fn has_nul(s: Seq<u8>) -> bool {
    exists|i: int| 0 <= i < s.len() && s[i] == 0u8
}

/// True when `c` is the C-string form of `s`: the bytes of `s`, none of them
/// null, followed by exactly one terminating null byte.
pub open spec fn is_c_string_of(c: Seq<u8>, s: Seq<u8>) -> bool {
    c == s.push(0u8) && !has_nul(s)
}

/// True when `c` is a well-formed C string image: at least the terminator,
/// which is the only null byte.
pub open spec fn is_c_form(c: Seq<u8>) -> bool {
    &&& c.len() >= 1
    &&& c[c.len() - 1] == 0u8
    &&& !has_nul(c.take(c.len() - 1))
}

/// The payload of a C string image: everything before the terminator.
pub open spec fn c_payload(c: Seq<u8>) -> Seq<u8> {
    c.take(c.len() - 1)
}

/// A C-string image of `s` is well-formed, and stripping its terminator
/// yields `s` again.
pub proof fn lemma_c_string_form(c: Seq<u8>, s: Seq<u8>)
    requires
        is_c_string_of(c, s),
    ensures
        is_c_form(c),
        c_payload(c) == s,
{
    assert(c.take(c.len() - 1) =~= s);
}

/// Relies on `cstr_core::CString::new`, which fails exactly when the input
/// contains a null byte, and `CString::into_bytes_with_nul`, which returns
/// the input bytes followed by the terminating null byte.
#[verifier::external_body]
fn c_string_bytes(s: &Vec<u8>) -> (r: Result<Vec<u8>, PdError>)
    ensures
        r is Ok <==> !has_nul(s@),
        r is Ok ==> r->Ok_0@ == s@.push(0u8),
        r is Err ==> r->Err_0 == (PdError::Encoding),
{
    match cstr_core::CString::new(s.as_slice()) {
        Ok(c) => Ok(c.into_bytes_with_nul()),
        Err(_) => Err(PdError::Encoding),
    }
}

/// Converts `s` to a null-terminated byte string, or reports `Encoding` when
/// `s` holds an embedded null byte.
pub fn to_c_string(s: &Vec<u8>) -> (r: Result<Vec<u8>, PdError>)
    ensures
        r is Ok <==> !has_nul(s@),
        r is Ok ==> is_c_string_of(r->Ok_0@, s@),
        r is Err ==> r->Err_0 == (PdError::Encoding),
{
    c_string_bytes(s)
}

} // verus!
