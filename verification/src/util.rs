use vstd::prelude::*;

verus! {

/// `v` with its elements in the opposite order.
pub(crate) fn reverse_vec<T: Copy>(v: &[T]) -> (r: Vec<T>)
    ensures
        r@ == v@.reverse(),
{
    let n = v.len();
    let mut r: Vec<T> = Vec::new();
    let mut i: usize = 0;
    while i < n
        invariant
            i <= n,
            n == v@.len(),
            r@.len() == i,
            forall|j: int| 0 <= j < i ==> r@[j] == v@[n - 1 - j],
        decreases n - i,
    {
        r.push(v[n - 1 - i]);
        i = i + 1;
    }
    proof {
        assert(r@ =~= v@.reverse());
    }
    r
}

/// Append every byte of `src` to `dst`.
pub(crate) fn push_all(dst: &mut Vec<u8>, src: &[u8])
    ensures
        final(dst)@ == old(dst)@ + src@,
{
    let ghost dst0 = dst@;
    let n = src.len();
    let mut i: usize = 0;
    while i < n
        invariant
            i <= n,
            n == src@.len(),
            dst@ == dst0 + src@.take(i as int),
        decreases n - i,
    {
        dst.push(src[i]);
        proof {
            assert(dst@ =~= dst0 + src@.take(i + 1));
        }
        i = i + 1;
    }
    proof {
        assert(dst0 + src@.take(n as int) =~= dst0 + src@);
    }
}

} // verus!
