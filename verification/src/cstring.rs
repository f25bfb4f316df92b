//! Encoding of names, paths and attribute patterns as NUL-terminated byte
//! strings, the form in which the engine takes text.

use vstd::prelude::*;
use vstd::string::StringSliceAdditionalSpecFns;
use crate::error::{Error, CODE_ERROR};

verus! {

/// Whether a NUL byte occurs anywhere in `bytes`.
pub open spec fn has_nul(bytes: Seq<u8>) -> bool {
    exists|i: int| 0 <= i < bytes.len() && bytes[i] == 0u8
}

/// The NUL-terminated form of `bytes`: the same bytes followed by one NUL.
pub open spec fn terminated(bytes: Seq<u8>) -> Seq<u8> {
    bytes.push(0u8)
}

/// Whether `c` is a well-formed NUL-terminated string: it ends in NUL and
/// holds no other NUL.
pub open spec fn is_c_string(c: Seq<u8>) -> bool {
    &&& c.len() > 0
    &&& c.last() == 0u8
    &&& !has_nul(c.drop_last())
}

/// Encodes `bytes` as a NUL-terminated string. Bytes that hold a NUL cannot
/// be represented and give an error; nothing else does.
pub fn bytes_into_c_string(bytes: &[u8]) -> (r: Result<Vec<u8>, Error>)
    ensures
        has_nul(bytes@) <==> r is Err,
        r is Ok ==> r->Ok_0@ == terminated(bytes@) && is_c_string(r->Ok_0@),
        r is Err ==> r->Err_0@.code == CODE_ERROR,
{
    let mut out: Vec<u8> = Vec::new();
    let mut i: usize = 0;
    while i < bytes.len()
        invariant
            0 <= i <= bytes.len(),
            out@ == bytes@.take(i as int),
            forall|j: int| 0 <= j < i ==> bytes@[j] != 0u8,
        decreases bytes.len() - i,
    {
        let b: u8 = bytes[i];
        if b == 0 {
            return Err(
                Error::from_str("data contained a nul byte that could not be represented as a string"),
            );
        }
        out.push(b);
        assert(bytes@.take(i as int).push(b) =~= bytes@.take(i as int + 1));
        i += 1;
    }
    assert(bytes@.take(i as int) =~= bytes@);
    out.push(0u8);
    assert(out@.drop_last() =~= bytes@);
    Ok(out)
}

/// Encodes text as a NUL-terminated UTF-8 string; see
/// [`bytes_into_c_string`].
pub fn into_c_string(text: &str) -> (r: Result<Vec<u8>, Error>)
    ensures
        has_nul(text.spec_bytes()) <==> r is Err,
        r is Ok ==> r->Ok_0@ == terminated(text.spec_bytes()) && is_c_string(r->Ok_0@),
        r is Err ==> r->Err_0@.code == CODE_ERROR,
{
    bytes_into_c_string(text.as_bytes())
}

} // verus!
