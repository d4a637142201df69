use crate::codec::Codec;
use crate::endian::{is_wire_order, lemma_u64_bytes_roundtrip, u64_bytes, u64_value, Endian};
use vstd::prelude::*;

verus! {

/// The frame for payload `p`: eight length bytes under `e`, then `p` itself.
pub open spec fn frame_bytes(e: Endian, p: Seq<u8>) -> Seq<u8>
    recommends
        is_wire_order(e),
        p.len() <= u64::MAX,
{
    u64_bytes(e, p.len() as u64) + p
}

/// The length declared by the first eight bytes of `s`.
pub open spec fn frame_len(e: Endian, s: Seq<u8>) -> u64
    recommends
        is_wire_order(e),
        s.len() >= 8,
{
    u64_value(e, s.take(8))
}

/// The payload that follows the length prefix of `s`.
pub open spec fn frame_payload(s: Seq<u8>) -> Seq<u8>
    recommends
        s.len() >= 8,
{
    s.skip(8)
}

/// `s` is one whole frame: its declared length is honoured exactly and stays
/// within `max`.
pub open spec fn is_complete_frame(e: Endian, max: usize, s: Seq<u8>) -> bool
    recommends
        is_wire_order(e),
{
    &&& s.len() >= 8
    &&& frame_len(e, s) <= max
    &&& s.len() == 8 + frame_len(e, s)
}

/// The eight bytes in front of any payload on the wire are exactly the
/// payload's byte length under the configured byte order, and reading the
/// frame back recovers length and payload.
pub proof fn lemma_frame_prefix(e: Endian, p: Seq<u8>)
    requires
        is_wire_order(e),
        p.len() <= u64::MAX,
    ensures
        frame_bytes(e, p).len() == 8 + p.len(),
        frame_bytes(e, p).take(8) == u64_bytes(e, p.len() as u64),
        frame_len(e, frame_bytes(e, p)) == p.len(),
        frame_payload(frame_bytes(e, p)) == p,
{
    lemma_u64_bytes_roundtrip(e, p.len() as u64);
    assert(frame_bytes(e, p).take(8) =~= u64_bytes(e, p.len() as u64));
    assert(frame_payload(frame_bytes(e, p)) =~= p);
}

/// Framing is self-delimiting: a complete frame that is the head of another
/// complete frame is that whole frame.
pub proof fn lemma_frame_deterministic(e: Endian, max: usize, s1: Seq<u8>, s2: Seq<u8>)
    requires
        is_wire_order(e),
        is_complete_frame(e, max, s1),
        is_complete_frame(e, max, s2),
        s1.len() <= s2.len(),
        s1 == s2.take(s1.len() as int),
    ensures
        s1 == s2,
{
    assert(s1.take(8) =~= s2.take(8));
    assert(s1.len() == s2.len());
    assert(s1 =~= s2);
}

/// Round trip: when a receiver has assembled a complete frame from the head
/// of a stream onto which a sender put the frame of an encodable value `v`,
/// the frame is exactly the sender's, and the value `w` it decodes is `v`.
pub proof fn lemma_round_trip<T: Codec>(
    v: T::V,
    w: T::V,
    e: Endian,
    max: usize,
    s: Seq<u8>,
    rest: Seq<u8>,
)
    requires
        is_wire_order(e),
        T::spec_encodable(v, e),
        T::spec_encode(v, e).len() <= u64::MAX,
        T::spec_encode(v, e).len() <= max,
        is_complete_frame(e, max, s),
        s.is_prefix_of(frame_bytes(e, T::spec_encode(v, e)) + rest),
        T::spec_encodable(w, e),
        T::spec_encode(w, e) == frame_payload(s),
    ensures
        w == v,
        s == frame_bytes(e, T::spec_encode(v, e)),
{
    let p = T::spec_encode(v, e);
    let f = frame_bytes(e, p);
    lemma_frame_prefix(e, p);
    if s.len() <= f.len() {
        assert(s =~= f.take(s.len() as int));
        lemma_frame_deterministic(e, max, s, f);
    } else {
        assert forall|i: int| 0 <= i < f.len() implies s.take(f.len() as int)[i] == f[i] by {
            assert(s[i] == (f + rest)[i]);
            assert((f + rest)[i] == f[i]);
        }
        assert(f =~= s.take(f.len() as int));
        lemma_frame_deterministic(e, max, f, s);
    }
    T::lemma_encode_injective(w, v, e);
}

} // verus!
