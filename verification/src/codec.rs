use crate::endian::{
    is_wire_order, lemma_u64_bytes_injective, lemma_u64_bytes_roundtrip, lemma_u64_value_roundtrip,
    u64_bytes, u64_from_bytes, u64_to_bytes, Endian,
};
use vstd::prelude::*;
use vstd::slice::slice_to_vec;

verus! {

/// The pluggable codec capability: how a message value turns into payload
/// bytes and back.
///
/// A message type is described by its abstract value, the view `Self::V`; the
/// codec is a pair of functions between views and byte sequences, injective
/// on everything it can encode. The byte order `e` is handed through so a
/// codec may honour it inside the payload; a codec whose format has no
/// multi-byte numbers simply ignores it.
pub trait Codec: View + Sized {
    /// The encoding of a value with view `v` under byte order `e`.
    spec fn spec_encode(v: Self::V, e: Endian) -> Seq<u8>;

    /// Whether the codec can encode a value with view `v` at all.
    spec fn spec_encodable(v: Self::V, e: Endian) -> bool;

    /// Encode `self`; `None` exactly when the codec cannot encode it.
    fn encode(&self, e: Endian) -> (r: Option<Vec<u8>>)
        requires
            is_wire_order(e),
        ensures
            r is Some <==> Self::spec_encodable(self@, e),
            r matches Some(b) ==> b@ == Self::spec_encode(self@, e),
    ;

    /// Decode one complete payload; `None` exactly when no encodable value
    /// has `bytes` as its encoding.
    fn decode(bytes: &[u8], e: Endian) -> (r: Option<Self>)
        requires
            is_wire_order(e),
        ensures
            r matches Some(v) ==> Self::spec_encodable(v@, e) && Self::spec_encode(v@, e)
                == bytes@,
            r is None ==> forall|w: Self::V|
                Self::spec_encodable(w, e) ==> Self::spec_encode(w, e) != bytes@,
    ;

    /// The encoding pins the value down: no two encodable values share one.
    proof fn lemma_encode_injective(v: Self::V, w: Self::V, e: Endian)
        requires
            is_wire_order(e),
            Self::spec_encodable(v, e),
            Self::spec_encodable(w, e),
            Self::spec_encode(v, e) == Self::spec_encode(w, e),
        ensures
            v == w,
    ;
}

/// Raw byte messages: the payload is the message itself.
impl Codec for Vec<u8> {
    open spec fn spec_encode(v: Seq<u8>, e: Endian) -> Seq<u8> {
        v
    }

    open spec fn spec_encodable(v: Seq<u8>, e: Endian) -> bool {
        true
    }

    fn encode(&self, e: Endian) -> (r: Option<Vec<u8>>) {
        Some(slice_to_vec(self.as_slice()))
    }

    fn decode(bytes: &[u8], e: Endian) -> (r: Option<Vec<u8>>) {
        Some(slice_to_vec(bytes))
    }

    proof fn lemma_encode_injective(v: Seq<u8>, w: Seq<u8>, e: Endian) {
    }
}

/// Plain numbers: eight bytes in the configured byte order.
impl Codec for u64 {
    open spec fn spec_encode(v: u64, e: Endian) -> Seq<u8> {
        u64_bytes(e, v)
    }

    open spec fn spec_encodable(v: u64, e: Endian) -> bool {
        true
    }

    fn encode(&self, e: Endian) -> (r: Option<Vec<u8>>) {
        Some(u64_to_bytes(e, *self))
    }

    fn decode(bytes: &[u8], e: Endian) -> (r: Option<u64>) {
        if bytes.len() == 8 {
            let x = u64_from_bytes(e, bytes);
            proof {
                lemma_u64_value_roundtrip(e, bytes@);
            }
            Some(x)
        } else {
            proof {
                assert forall|w: u64| u64_bytes(e, w) != bytes@ by {
                    lemma_u64_bytes_roundtrip(e, w);
                }
            }
            None
        }
    }

    proof fn lemma_encode_injective(v: u64, w: u64, e: Endian) {
        lemma_u64_bytes_injective(e, v, w);
    }
}

} // verus!
