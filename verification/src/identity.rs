//! Plain-value models of peer identities and network addresses.
//!
//! The transport layer has its own opaque identity and address types; the
//! discovery core only ever reads their byte representations, so it models
//! both as validated byte strings. The embedding application converts at the
//! boundary.

use vstd::prelude::*;

verus! {

/// Largest byte length of an identity or an address that the wire format can
/// carry (the length prefix is two bytes).
pub const MAX_FIELD_LEN: usize = 0xFFFF;

/// A peer identity: the byte encoding of a peer's public identifier.
///
/// Valid identities are nonempty and short enough for the wire format's
/// two-byte length prefix.
#[derive(Clone, Debug)]
pub struct Identity {
    bytes: Vec<u8>,
}

/// A reachable network address of a peer, as its byte encoding.
///
/// Valid addresses are nonempty and short enough for the wire format's
/// two-byte length prefix.
#[derive(Clone, Debug)]
pub struct MultiAddress {
    bytes: Vec<u8>,
}

/// Validity of an identity's byte string.
pub open spec fn identity_bytes_wf(bytes: Seq<u8>) -> bool {
    1 <= bytes.len() <= MAX_FIELD_LEN
}

/// Validity of an address's byte string.
pub open spec fn address_bytes_wf(bytes: Seq<u8>) -> bool {
    1 <= bytes.len() <= MAX_FIELD_LEN
}

impl View for Identity {
    type V = Seq<u8>;

    closed spec fn view(&self) -> Seq<u8> {
        self.bytes@
    }
}

impl Identity {
    /// Well-formedness: established by `new`, preserved by every method.
    pub open spec fn wf(&self) -> bool {
        identity_bytes_wf(self@)
    }

    /// Validates and wraps identity bytes; rejects exactly the byte strings
    /// that the wire format cannot carry.
    pub fn new(bytes: Vec<u8>) -> (r: Option<Identity>)
        ensures
            r is Some <==> identity_bytes_wf(bytes@),
            r matches Some(id) ==> id@ == bytes@ && id.wf(),
    {
        if 1 <= bytes.len() && bytes.len() <= MAX_FIELD_LEN {
            Some(Identity { bytes })
        } else {
            None
        }
    }

    /// The identity's byte encoding.
    pub fn as_bytes(&self) -> (r: &Vec<u8>)
        ensures
            r@ == self@,
    {
        &self.bytes
    }
}

impl View for MultiAddress {
    type V = Seq<u8>;

    closed spec fn view(&self) -> Seq<u8> {
        self.bytes@
    }
}

impl MultiAddress {
    /// Well-formedness: established by `new`, preserved by every method.
    pub open spec fn wf(&self) -> bool {
        address_bytes_wf(self@)
    }

    /// Validates and wraps address bytes; rejects exactly the byte strings
    /// that the wire format cannot carry.
    pub fn new(bytes: Vec<u8>) -> (r: Option<MultiAddress>)
        ensures
            r is Some <==> address_bytes_wf(bytes@),
            r matches Some(a) ==> a@ == bytes@ && a.wf(),
    {
        if 1 <= bytes.len() && bytes.len() <= MAX_FIELD_LEN {
            Some(MultiAddress { bytes })
        } else {
            None
        }
    }

    /// The address's byte encoding.
    pub fn as_bytes(&self) -> (r: &Vec<u8>)
        ensures
            r@ == self@,
    {
        &self.bytes
    }
}

/// Byte-for-byte equality of two byte strings.
pub fn bytes_eq(a: &Vec<u8>, b: &Vec<u8>) -> (r: bool)
    ensures
        r <==> a@ == b@,
{
    if a.len() != b.len() {
        return false;
    }
    let n = a.len();
    let mut i: usize = 0;
    while i < n
        invariant
            n == a.len() == b.len(),
            i <= n,
            forall|j: int| 0 <= j < i ==> a@[j] == b@[j],
        decreases n - i,
    {
        if a[i] != b[i] {
            return false;
        }
        i = i + 1;
    }
    proof {
        assert(a@ =~= b@);
    }
    true
}

} // verus!
