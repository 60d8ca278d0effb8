//! Marshaling Rust strings into C strings.
//!
//! A Rust string crosses the boundary as a NUL-terminated byte buffer, which
//! is only possible when the string itself contains no NUL byte.  A string
//! with an embedded NUL is a typed error, never a panic.

use crate::result::MagickError;
use vstd::prelude::*;
use vstd::string::StrSliceExecFns;
use vstd::string::StringSliceAdditionalSpecFns;

verus! {

/// Whether a byte sequence holds a NUL byte, which a C string cannot carry.
pub open spec fn has_nul(s: Seq<u8>) -> bool {
    exists|i: int| 0 <= i < s.len() && s[i] == 0
}

/// The bytes of a NUL-terminated C string holding `s`: the bytes of `s`
/// followed by one terminating NUL.
pub open spec fn c_string_bytes(s: Seq<u8>) -> Seq<u8> {
    s.push(0)
}

/// Builds the NUL-terminated byte buffer for `s`, or reports the embedded
/// NUL byte that makes `s` unrepresentable as a C string.
pub fn to_c_string_bytes(s: &str) -> (r: Result<Vec<u8>, MagickError>)
    ensures
        !has_nul(s.spec_bytes()) ==> (r matches Ok(v) && v@ == c_string_bytes(s.spec_bytes())),
        has_nul(s.spec_bytes()) ==> (r matches Err(e) && e.msg()
            == "could not convert to cstring"@),
{
    let bytes = s.as_bytes();
    let mut i: usize = 0;
    while i < bytes.len()
        invariant
            0 <= i <= bytes.len(),
            bytes@ == s.spec_bytes(),
            forall|j: int| 0 <= j < i ==> bytes@[j] != 0,
        decreases bytes.len() - i,
    {
        if bytes[i] == 0 {
            return Err(MagickError::from_str("could not convert to cstring"));
        }
        i += 1;
    }
    let mut out = s.as_bytes_vec();
    out.push(0);
    Ok(out)
}

/// Law: marshaling succeeds exactly on the strings without an embedded NUL,
/// and the buffer it returns ends in the single terminating NUL.
pub proof fn lemma_c_string_terminated(s: Seq<u8>)
    requires
        !has_nul(s),
    ensures
        c_string_bytes(s).len() == s.len() + 1,
        c_string_bytes(s)[s.len() as int] == 0,
        forall|i: int| 0 <= i < s.len() ==> c_string_bytes(s)[i] == s[i] && c_string_bytes(s)[i]
            != 0,
{
}

} // verus!
