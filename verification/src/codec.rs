//! Wire codec for discovery announcements.
//!
//! An announcement carries the originator's identity and its reachable
//! addresses in a self-describing encoding:
//!
//! ```text
//! [identity length, 2 bytes big-endian] [identity bytes]
//! [address count, 1 byte]
//! repeated per address: [address length, 2 bytes big-endian] [address bytes]
//! ```
//!
//! `spec_encode` and `spec_decode` are the mathematical model; `encode` and
//! `decode` are the executable codec, proved equal to the model. Decoding is
//! total: every byte string either decodes to a valid announcement or is
//! rejected as malformed.

use vstd::prelude::*;

use crate::identity::address_bytes_wf;
use crate::identity::identity_bytes_wf;
use crate::identity::Identity;
use crate::identity::MultiAddress;

verus! {

/// Largest number of addresses one announcement can carry (the count is one
/// byte).
pub const MAX_ADDRESSES: usize = 255;

/// The mathematical value of an announcement: the originator's identity bytes
/// and the byte strings of its reachable addresses.
pub struct AnnouncementView {
    pub originator: Seq<u8>,
    pub addresses: Seq<Seq<u8>>,
}

/// Validity of an announcement value: a nonempty identity and at most
/// `MAX_ADDRESSES` nonempty addresses, all short enough for the two-byte
/// length prefixes.
pub open spec fn announcement_wf(v: AnnouncementView) -> bool {
    &&& identity_bytes_wf(v.originator)
    &&& v.addresses.len() <= MAX_ADDRESSES
    &&& forall|i: int| 0 <= i < v.addresses.len() ==> address_bytes_wf(#[trigger] v.addresses[i])
}

/// A discovery announcement: a validated originator identity and its
/// reachable addresses.
pub struct Announcement {
    originator: Identity,
    addresses: Vec<MultiAddress>,
}

impl View for Announcement {
    type V = AnnouncementView;

    closed spec fn view(&self) -> AnnouncementView {
        AnnouncementView {
            originator: self.originator@,
            addresses: self.addresses@.map_values(|a: MultiAddress| a@),
        }
    }
}

/// Error reported when a payload is not a well-formed announcement encoding.
#[derive(Clone, Copy, Debug, PartialEq, Eq, Structural)]
pub enum DecodeError {
    MalformedAnnouncement,
}

impl Announcement {
    /// Well-formedness: established by `new` and `decode`, preserved by every
    /// method.
    pub open spec fn wf(&self) -> bool {
        announcement_wf(self@)
    }

    /// Builds an announcement; rejects exactly the address lists the one-byte
    /// count cannot carry.
    pub fn new(originator: Identity, addresses: Vec<MultiAddress>) -> (r: Option<Announcement>)
        requires
            originator.wf(),
            forall|i: int| 0 <= i < addresses@.len() ==> (#[trigger] addresses@[i]).wf(),
        ensures
            r is Some <==> addresses@.len() <= MAX_ADDRESSES,
            r matches Some(a) ==> a@ == (AnnouncementView {
                originator: originator@,
                addresses: addresses@.map_values(|m: MultiAddress| m@),
            }) && a.wf(),
    {
        if addresses.len() <= MAX_ADDRESSES {
            let a = Announcement { originator, addresses };
            proof {
                assert forall|i: int| 0 <= i < a@.addresses.len() implies address_bytes_wf(
                    #[trigger] a@.addresses[i],
                ) by {
                    assert(a@.addresses[i] == a.addresses@[i]@);
                }
            }
            Some(a)
        } else {
            None
        }
    }

    /// The announcing peer's identity.
    pub fn originator(&self) -> (r: &Identity)
        ensures
            r@ == self@.originator,
    {
        &self.originator
    }

    /// The announcing peer's reachable addresses.
    pub fn addresses(&self) -> (r: &Vec<MultiAddress>)
        ensures
            r@.map_values(|m: MultiAddress| m@) == self@.addresses,
    {
        &self.addresses
    }
}

/// The two-byte big-endian encoding of `n`.
pub open spec fn spec_be16(n: nat) -> Seq<u8> {
    seq![(n / 256) as u8, (n % 256) as u8]
}

/// The value carried by two big-endian bytes.
pub open spec fn be16_val(hi: u8, lo: u8) -> nat {
    hi as nat * 256 + lo as nat
}

pub proof fn lemma_be16_round_trip(n: nat)
    requires
        n < 65536,
    ensures
        be16_val(spec_be16(n)[0], spec_be16(n)[1]) == n,
{
    assert(n / 256 < 256) by (nonlinear_arith)
        requires n < 65536,
    ;
    assert(n / 256 * 256 + n % 256 == n) by (nonlinear_arith);
}

/// The encoding of one address: length prefix, then the bytes.
pub open spec fn spec_encode_address(a: Seq<u8>) -> Seq<u8> {
    spec_be16(a.len()) + a
}

/// The concatenated encodings of a list of addresses.
pub open spec fn spec_encode_addresses(addrs: Seq<Seq<u8>>) -> Seq<u8>
    decreases addrs.len(),
{
    if addrs.len() == 0 {
        Seq::empty()
    } else {
        spec_encode_address(addrs[0]) + spec_encode_addresses(addrs.drop_first())
    }
}

/// The full encoding of an announcement.
pub open spec fn spec_encode(v: AnnouncementView) -> Seq<u8> {
    spec_be16(v.originator.len()) + v.originator + seq![v.addresses.len() as u8]
        + spec_encode_addresses(v.addresses)
}

/// The decoding of a list of `count` addresses; `None` unless `bytes` is
/// exactly their concatenated encodings.
pub open spec fn spec_decode_addresses(bytes: Seq<u8>, count: nat) -> Option<Seq<Seq<u8>>>
    decreases count,
{
    if count == 0 {
        if bytes.len() == 0 {
            Some(Seq::<Seq<u8>>::empty())
        } else {
            None
        }
    } else if bytes.len() < 2 {
        None
    } else {
        let len = be16_val(bytes[0], bytes[1]) as int;
        if len < 1 || bytes.len() < 2 + len {
            None
        } else {
            let addr = bytes.subrange(2, 2 + len);
            match spec_decode_addresses(bytes.skip(2 + len), (count - 1) as nat) {
                Some(rest) => Some(seq![addr] + rest),
                None => None,
            }
        }
    }
}

/// The decoding of a whole announcement; `None` unless `bytes` is exactly the
/// encoding of one valid announcement.
pub open spec fn spec_decode(bytes: Seq<u8>) -> Option<AnnouncementView> {
    if bytes.len() < 3 {
        None
    } else {
        let ilen = be16_val(bytes[0], bytes[1]) as int;
        if ilen < 1 || bytes.len() < 3 + ilen {
            None
        } else {
            let originator = bytes.subrange(2, 2 + ilen);
            let count = bytes[2 + ilen] as nat;
            match spec_decode_addresses(bytes.skip(3 + ilen), count) {
                Some(addresses) => Some(AnnouncementView { originator, addresses }),
                None => None,
            }
        }
    }
}

/// Appends the two-byte big-endian encoding of `n`.
fn push_be16(out: &mut Vec<u8>, n: u16)
    ensures
        final(out)@ == old(out)@ + spec_be16(n as nat),
{
    out.push((n / 256) as u8);
    out.push((n % 256) as u8);
    proof {
        assert(out@ =~= old(out)@ + spec_be16(n as nat));
    }
}

/// Appends a copy of `bytes`.
fn push_bytes(out: &mut Vec<u8>, bytes: &Vec<u8>)
    ensures
        final(out)@ == old(out)@ + bytes@,
{
    let n = bytes.len();
    let mut i: usize = 0;
    while i < n
        invariant
            n == bytes.len(),
            i <= n,
            out@ == old(out)@ + bytes@.take(i as int),
        decreases n - i,
    {
        out.push(bytes[i]);
        proof {
            assert(out@ =~= old(out)@ + bytes@.take(i as int + 1));
        }
        i = i + 1;
    }
    proof {
        assert(bytes@.take(n as int) =~= bytes@);
    }
}

/// Reads the two-byte big-endian value at `pos`.
fn read_be16(bytes: &Vec<u8>, pos: usize) -> (r: u16)
    requires
        pos + 2 <= bytes@.len(),
    ensures
        r as nat == be16_val(bytes@[pos as int], bytes@[pos as int + 1]),
{
    let n = bytes.len();
    proof {
        assert(pos + 2 <= n);
    }
    let hi = bytes[pos];
    let lo = bytes[pos + 1];
    hi as u16 * 256 + lo as u16
}

/// Copies `bytes[start..end]` into a fresh vector.
fn copy_range(bytes: &Vec<u8>, start: usize, end: usize) -> (r: Vec<u8>)
    requires
        start <= end <= bytes@.len(),
    ensures
        r@ == bytes@.subrange(start as int, end as int),
{
    let mut out: Vec<u8> = Vec::new();
    let mut i: usize = start;
    while i < end
        invariant
            start <= i <= end <= bytes@.len(),
            out@ == bytes@.subrange(start as int, i as int),
        decreases end - i,
    {
        out.push(bytes[i]);
        proof {
            assert(out@ =~= bytes@.subrange(start as int, i as int + 1));
        }
        i = i + 1;
    }
    out
}

/// Appending one address to a list appends its encoding to the list's
/// encoding.
proof fn lemma_encode_addresses_push(addrs: Seq<Seq<u8>>, a: Seq<u8>)
    ensures
        spec_encode_addresses(addrs.push(a)) == spec_encode_addresses(addrs)
            + spec_encode_address(a),
    decreases addrs.len(),
{
    let p = addrs.push(a);
    if addrs.len() == 0 {
        assert(p.len() == 1);
        assert(p[0] == a);
        assert(p.drop_first() =~= Seq::<Seq<u8>>::empty());
        assert(spec_encode_addresses(p) == spec_encode_address(a) + spec_encode_addresses(
            Seq::<Seq<u8>>::empty(),
        ));
        assert(spec_encode_addresses(Seq::<Seq<u8>>::empty()) == Seq::<u8>::empty());
        assert(spec_encode_addresses(addrs) == Seq::<u8>::empty());
        assert(spec_encode_address(a) + Seq::<u8>::empty() =~= spec_encode_address(a));
        assert(Seq::<u8>::empty() + spec_encode_address(a) =~= spec_encode_address(a));
    } else {
        assert(p.len() == addrs.len() + 1);
        assert(p[0] == addrs[0]);
        assert(p.drop_first() =~= addrs.drop_first().push(a));
        lemma_encode_addresses_push(addrs.drop_first(), a);
        assert(spec_encode_addresses(p) == spec_encode_address(addrs[0]) + (
        spec_encode_addresses(addrs.drop_first()) + spec_encode_address(a)));
        assert(spec_encode_addresses(addrs) == spec_encode_address(addrs[0])
            + spec_encode_addresses(addrs.drop_first()));
        assert(spec_encode_address(addrs[0]) + (spec_encode_addresses(addrs.drop_first())
            + spec_encode_address(a)) =~= (spec_encode_address(addrs[0])
            + spec_encode_addresses(addrs.drop_first())) + spec_encode_address(a));
    }
}

/// Encodes an announcement into its wire payload.
pub fn encode(a: &Announcement) -> (r: Vec<u8>)
    requires
        a.wf(),
    ensures
        r@ == spec_encode(a@),
{
    let mut out: Vec<u8> = Vec::new();
    let ob = a.originator.as_bytes();
    push_be16(&mut out, ob.len() as u16);
    push_bytes(&mut out, ob);
    out.push(a.addresses.len() as u8);
    let ghost head: Seq<u8> = spec_be16(a@.originator.len()) + a@.originator + seq![
        a@.addresses.len() as u8,
    ];
    proof {
        assert(out@ =~= head);
    }
    let n = a.addresses.len();
    let mut i: usize = 0;
    while i < n
        invariant
            a.wf(),
            n == a.addresses.len(),
            i <= n,
            out@ == head + spec_encode_addresses(a@.addresses.take(i as int)),
        decreases n - i,
    {
        let ab = a.addresses[i].as_bytes();
        proof {
            assert(ab@ == a@.addresses[i as int]);
            assert(address_bytes_wf(a@.addresses[i as int]));
        }
        push_be16(&mut out, ab.len() as u16);
        push_bytes(&mut out, ab);
        proof {
            lemma_encode_addresses_push(a@.addresses.take(i as int), a@.addresses[i as int]);
            assert(a@.addresses.take(i as int + 1) =~= a@.addresses.take(i as int).push(
                a@.addresses[i as int],
            ));
            assert(out@ =~= head + spec_encode_addresses(a@.addresses.take(i as int + 1)));
        }
        i = i + 1;
    }
    proof {
        assert(a@.addresses.take(n as int) =~= a@.addresses);
        assert(out@ =~= spec_encode(a@));
    }
    out
}

/// Decodes a wire payload; returns the announcement exactly when the payload
/// is a well-formed encoding, and `MalformedAnnouncement` otherwise.
pub fn decode(bytes: &Vec<u8>) -> (r: Result<Announcement, DecodeError>)
    ensures
        r matches Ok(a) ==> spec_decode(bytes@) == Some(a@) && a.wf(),
        r is Err ==> spec_decode(bytes@) is None,
        r is Err ==> r == Err::<Announcement, DecodeError>(DecodeError::MalformedAnnouncement),
{
    if bytes.len() < 3 {
        return Err(DecodeError::MalformedAnnouncement);
    }
    let ilen = read_be16(bytes, 0) as usize;
    proof {
        assert(ilen as nat == be16_val(bytes@[0], bytes@[1]));
    }
    if ilen < 1 {
        proof {
            assert(spec_decode(bytes@) is None);
        }
        return Err(DecodeError::MalformedAnnouncement);
    }
    if bytes.len() < 3 + ilen {
        proof {
            assert(spec_decode(bytes@) is None);
        }
        return Err(DecodeError::MalformedAnnouncement);
    }
    let originator_bytes = copy_range(bytes, 2, 2 + ilen);
    let originator = match Identity::new(originator_bytes) {
        Some(id) => id,
        None => {
            return Err(DecodeError::MalformedAnnouncement);
        },
    };
    let count = bytes[2 + ilen] as usize;
    let ghost tail0: int = 3 + ilen as int;
    let mut pos: usize = 3 + ilen;
    let mut addrs: Vec<MultiAddress> = Vec::new();
    let mut k: usize = 0;
    while k < count
        invariant
            k <= count,
            count <= MAX_ADDRESSES,
            tail0 <= pos <= bytes@.len(),
            tail0 == 3 + ilen,
            1 <= ilen < 65536,
            3 + ilen <= bytes@.len(),
            ilen as nat == be16_val(bytes@[0], bytes@[1]),
            count as nat == bytes@[2 + ilen as int] as nat,
            addrs@.len() == k,
            forall|j: int| 0 <= j < addrs@.len() ==> (#[trigger] addrs@[j]).wf(),
            spec_decode_addresses(bytes@.skip(tail0), count as nat) == (match spec_decode_addresses(
                bytes@.skip(pos as int),
                (count - k) as nat,
            ) {
                Some(rest) => Some(addrs@.map_values(|m: MultiAddress| m@) + rest),
                None => None::<Seq<Seq<u8>>>,
            }),
        decreases count - k,
    {
        let ghost tail = bytes@.skip(pos as int);
        if bytes.len() - pos < 2 {
            proof {
                assert(tail.len() < 2);
                assert(spec_decode_addresses(tail, (count - k) as nat) is None);
                assert(spec_decode_addresses(bytes@.skip(tail0), count as nat) is None);
                assert(spec_decode(bytes@) is None);
            }
            return Err(DecodeError::MalformedAnnouncement);
        }
        let alen = read_be16(bytes, pos) as usize;
        proof {
            assert(tail[0] == bytes@[pos as int]);
            assert(tail[1] == bytes@[pos as int + 1]);
        }
        if alen < 1 {
            proof {
                assert(spec_decode_addresses(tail, (count - k) as nat) is None);
                assert(spec_decode_addresses(bytes@.skip(tail0), count as nat) is None);
                assert(spec_decode(bytes@) is None);
            }
            return Err(DecodeError::MalformedAnnouncement);
        }
        if bytes.len() - pos - 2 < alen {
            proof {
                assert(tail.len() < 2 + alen);
                assert(spec_decode_addresses(tail, (count - k) as nat) is None);
                assert(spec_decode_addresses(bytes@.skip(tail0), count as nat) is None);
                assert(spec_decode(bytes@) is None);
            }
            return Err(DecodeError::MalformedAnnouncement);
        }
        let addr_bytes = copy_range(bytes, pos + 2, pos + 2 + alen);
        proof {
            assert(addr_bytes@ =~= tail.subrange(2, 2 + alen as int));
        }
        let addr = match MultiAddress::new(addr_bytes) {
            Some(m) => m,
            None => {
                return Err(DecodeError::MalformedAnnouncement);
            },
        };
        let ghost old_views = addrs@.map_values(|m: MultiAddress| m@);
        addrs.push(addr);
        proof {
            assert(addrs@.map_values(|m: MultiAddress| m@) =~= old_views.push(
                tail.subrange(2, 2 + alen as int),
            ));
            assert(bytes@.skip(pos as int + 2 + alen as int) =~= tail.skip(2 + alen as int));
        }
        pos = pos + 2 + alen;
        k = k + 1;
        proof {
            let rest_now = spec_decode_addresses(bytes@.skip(pos as int), (count - k) as nat);
            match rest_now {
                Some(r2) => {
                    assert(spec_decode_addresses(tail, (count - (k - 1)) as nat) == Some(
                        seq![tail.subrange(2, 2 + alen as int)] + r2,
                    ));
                    assert(addrs@.map_values(|m: MultiAddress| m@) + r2 =~= old_views + (seq![
                        tail.subrange(2, 2 + alen as int),
                    ] + r2));
                },
                None => {},
            }
        }
    }
    if pos != bytes.len() {
        proof {
            assert(bytes@.skip(pos as int).len() > 0);
        }
        return Err(DecodeError::MalformedAnnouncement);
    }
    proof {
        assert(bytes@.skip(pos as int).len() == 0);
        assert(addrs@.map_values(|m: MultiAddress| m@) + Seq::<Seq<u8>>::empty() =~= addrs@
            .map_values(|m: MultiAddress| m@));
    }
    match Announcement::new(originator, addrs) {
        Some(a) => {
            proof {
                assert(a@.originator =~= bytes@.subrange(2, 2 + ilen as int));
                let decoded = spec_decode(bytes@);
                assert(decoded matches Some(v) && v.originator == a@.originator && v.addresses
                    == a@.addresses);
            }
            Ok(a)
        },
        None => {
            proof {
                assert(false);
            }
            Err(DecodeError::MalformedAnnouncement)
        },
    }
}

/// Round trip: decoding the encoding of any valid announcement yields that
/// announcement.
pub proof fn lemma_addresses_round_trip(addrs: Seq<Seq<u8>>)
    requires
        forall|i: int| 0 <= i < addrs.len() ==> address_bytes_wf(#[trigger] addrs[i]),
    ensures
        spec_decode_addresses(spec_encode_addresses(addrs), addrs.len()) == Some(addrs),
    decreases addrs.len(),
{
    if addrs.len() == 0 {
        assert(spec_encode_addresses(addrs).len() == 0);
        assert(addrs =~= Seq::<Seq<u8>>::empty());
    } else {
        let a0 = addrs[0];
        let enc = spec_encode_addresses(addrs);
        let enc_rest = spec_encode_addresses(addrs.drop_first());
        assert(enc == spec_encode_address(a0) + enc_rest);
        assert(address_bytes_wf(a0));
        lemma_be16_round_trip(a0.len());
        assert(enc[0] == spec_be16(a0.len())[0]);
        assert(enc[1] == spec_be16(a0.len())[1]);
        assert(be16_val(enc[0], enc[1]) == a0.len());
        assert(enc.len() == 2 + a0.len() + enc_rest.len());
        assert(enc.subrange(2, 2 + a0.len() as int) =~= a0);
        assert(enc.skip(2 + a0.len() as int) =~= enc_rest);
        lemma_addresses_round_trip(addrs.drop_first());
        assert(seq![a0] + addrs.drop_first() =~= addrs);
    }
}

/// Round trip: decoding the encoding of any valid announcement yields exactly
/// that announcement.
pub proof fn lemma_round_trip(v: AnnouncementView)
    requires
        announcement_wf(v),
    ensures
        spec_decode(spec_encode(v)) == Some(v),
{
    let enc = spec_encode(v);
    let olen = v.originator.len();
    let count_byte: Seq<u8> = seq![v.addresses.len() as u8];
    let enc_addrs = spec_encode_addresses(v.addresses);
    assert(enc == spec_be16(olen) + v.originator + count_byte + enc_addrs);
    assert(enc.len() == 2 + olen + 1 + enc_addrs.len());
    lemma_be16_round_trip(olen);
    assert(enc[0] == spec_be16(olen)[0]);
    assert(enc[1] == spec_be16(olen)[1]);
    assert(be16_val(enc[0], enc[1]) == olen);
    assert(enc.subrange(2, 2 + olen as int) =~= v.originator);
    assert(enc[2 + olen as int] == v.addresses.len() as u8);
    assert(v.addresses.len() as u8 as nat == v.addresses.len());
    assert(enc.skip(3 + olen as int) =~= enc_addrs);
    lemma_addresses_round_trip(v.addresses);
    let decoded = spec_decode(enc);
    assert(decoded matches Some(d) && d.originator == v.originator && d.addresses == v.addresses);
    assert(decoded == Some(v));
}

} // verus!
