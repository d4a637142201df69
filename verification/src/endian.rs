use crate::util::reverse_vec;
use vstd::bytes::{
    lemma_auto_spec_u64_to_from_le_bytes, spec_u64_from_le_bytes, spec_u64_to_le_bytes,
    u64_from_le_bytes, u64_to_le_bytes,
};
use vstd::prelude::*;

verus! {

/// Byte-order policy for the eight-byte length prefix of a frame.
///
/// `Native` stands for the byte order of the machine the program runs on; it
/// is resolved to `Big` or `Little` when a sender or a receiver is built.
/// The two ends of a channel must agree on the byte order out of band.
#[derive(Clone, Copy, PartialEq, Eq, Structural, Debug)]
pub enum Endian {
    Big,
    Little,
    Native,
}

/// A byte order as it appears on the wire: `Native` already resolved away.
pub open spec fn is_wire_order(e: Endian) -> bool {
    e is Big || e is Little
}

/// The eight bytes that encode `x` under byte order `e`.
pub open spec fn u64_bytes(e: Endian, x: u64) -> Seq<u8>
    recommends
        is_wire_order(e),
{
    if e is Big {
        spec_u64_to_le_bytes(x).reverse()
    } else {
        spec_u64_to_le_bytes(x)
    }
}

/// The value encoded by the eight bytes `s` under byte order `e`.
pub open spec fn u64_value(e: Endian, s: Seq<u8>) -> u64
    recommends
        is_wire_order(e),
        s.len() == 8,
{
    if e is Big {
        spec_u64_from_le_bytes(s.reverse())
    } else {
        spec_u64_from_le_bytes(s)
    }
}

/// Encoding a value and reading the bytes back yields the value.
pub proof fn lemma_u64_bytes_roundtrip(e: Endian, x: u64)
    requires
        is_wire_order(e),
    ensures
        u64_bytes(e, x).len() == 8,
        u64_value(e, u64_bytes(e, x)) == x,
{
    lemma_auto_spec_u64_to_from_le_bytes();
    if e is Big {
        assert(spec_u64_to_le_bytes(x).reverse().reverse() =~= spec_u64_to_le_bytes(x));
    }
}

/// Reading eight bytes and encoding the value back yields the same bytes.
pub proof fn lemma_u64_value_roundtrip(e: Endian, s: Seq<u8>)
    requires
        is_wire_order(e),
        s.len() == 8,
    ensures
        u64_bytes(e, u64_value(e, s)) == s,
{
    lemma_auto_spec_u64_to_from_le_bytes();
    if e is Big {
        assert(s.reverse().reverse() =~= s);
    }
}

/// Two values with the same encoding are equal.
pub proof fn lemma_u64_bytes_injective(e: Endian, x: u64, y: u64)
    requires
        is_wire_order(e),
        u64_bytes(e, x) == u64_bytes(e, y),
    ensures
        x == y,
{
    lemma_u64_bytes_roundtrip(e, x);
    lemma_u64_bytes_roundtrip(e, y);
}

/// The big-endian and little-endian encodings of a value are each other's
/// reversal: ends configured with different byte orders read wrong lengths.
/// Agreement on the byte order is the caller's contract, not checked here.
pub proof fn lemma_u64_bytes_orders_reversed(x: u64)
    ensures
        u64_bytes(Endian::Big, x) == u64_bytes(Endian::Little, x).reverse(),
{
}

impl Endian {
    /// Resolve `Native` to the byte order of this machine.
    pub fn resolve(self) -> (r: Endian)
        ensures
            is_wire_order(r),
            is_wire_order(self) ==> r == self,
    {
        match self {
            Endian::Big => Endian::Big,
            Endian::Little => Endian::Little,
            Endian::Native => if native_is_big() {
                Endian::Big
            } else {
                Endian::Little
            },
        }
    }
}

/// Relies on `u16::from_ne_bytes`: the bytes `[0, 1]` read as 1 exactly on a
/// big-endian machine.
#[verifier::external_body]
fn native_is_big() -> bool {
    u16::from_ne_bytes([0u8, 1u8]) == 1
}

/// Write `x` as eight bytes under byte order `e`.
pub fn u64_to_bytes(e: Endian, x: u64) -> (r: Vec<u8>)
    requires
        is_wire_order(e),
    ensures
        r@ == u64_bytes(e, x),
        r@.len() == 8,
{
    proof {
        lemma_auto_spec_u64_to_from_le_bytes();
    }
    let le = u64_to_le_bytes(x);
    match e {
        Endian::Big => reverse_vec(le.as_slice()),
        _ => le,
    }
}

/// Read eight bytes as a value under byte order `e`.
pub fn u64_from_bytes(e: Endian, b: &[u8]) -> (r: u64)
    requires
        is_wire_order(e),
        b@.len() == 8,
    ensures
        r == u64_value(e, b@),
{
    match e {
        Endian::Big => {
            let rev = reverse_vec(b);
            u64_from_le_bytes(rev.as_slice())
        },
        _ => u64_from_le_bytes(b),
    }
}

} // verus!
