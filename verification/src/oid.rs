//! Content identifiers: the fixed-width names under which the engine stores
//! objects. The bridge carries them and never looks inside.

use vstd::prelude::*;
use crate::error::{Error, CODE_ERROR};

verus! {

/// Number of bytes in a content identifier.
pub const OID_RAW_LEN: usize = 20;

/// A content identifier.
#[derive(Clone, Copy, Debug)]
pub struct Oid {
    raw: [u8; 20],
}

impl View for Oid {
    type V = Seq<u8>;

    closed spec fn view(&self) -> Seq<u8> {
        self.raw@
    }
}

/// The identifier made of zero bytes, which the engine reads as "none".
pub open spec fn zero_oid() -> Seq<u8> {
    Seq::new(OID_RAW_LEN as nat, |i: int| 0u8)
}

impl Oid {
    /// The all-zero identifier.
    pub fn zero() -> (id: Oid)
        ensures
            id@ == zero_oid(),
    {
        let id = Oid { raw: [0u8, 0, 0, 0, 0, 0, 0, 0, 0, 0, 0, 0, 0, 0, 0, 0, 0, 0, 0, 0] };
        assert(id@ =~= zero_oid());
        id
    }

    /// Reads an identifier from raw bytes; anything but exactly
    /// [`OID_RAW_LEN`] bytes is refused.
    pub fn from_bytes(bytes: &[u8]) -> (r: Result<Oid, Error>)
        ensures
            bytes@.len() == OID_RAW_LEN <==> r is Ok,
            r is Ok ==> r->Ok_0@ == bytes@,
            r is Err ==> r->Err_0@.code == CODE_ERROR,
    {
        if bytes.len() != OID_RAW_LEN {
            return Err(Error::from_str("raw byte array must be 20 bytes"));
        }
        let mut raw: [u8; 20] = [0u8, 0, 0, 0, 0, 0, 0, 0, 0, 0, 0, 0, 0, 0, 0, 0, 0, 0, 0, 0];
        let mut i: usize = 0;
        while i < OID_RAW_LEN
            invariant
                0 <= i <= OID_RAW_LEN,
                bytes@.len() == OID_RAW_LEN,
                raw@.len() == OID_RAW_LEN,
                forall|j: int| 0 <= j < i ==> raw@[j] == bytes@[j],
            decreases OID_RAW_LEN - i,
        {
            raw[i] = bytes[i];
            i += 1;
        }
        assert(raw@ =~= bytes@);
        Ok(Oid { raw })
    }

    /// The bytes of the identifier.
    pub fn as_bytes(&self) -> (bytes: &[u8])
        ensures
            bytes@ == self@,
            bytes@.len() == OID_RAW_LEN,
    {
        self.raw.as_slice()
    }
}

} // verus!
