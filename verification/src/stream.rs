use crate::error::StreamError;
use vstd::prelude::*;

verus! {

/// A readable byte stream, abstracted as the sequence of bytes it will yield.
///
/// `pending()` is the stream's remaining content: every byte a reader will
/// ever obtain from it, in order. A blocking source simply waits until it can
/// hand bytes over; a non-blocking source may return `Err(NotReady)` instead,
/// changing nothing. A read of zero bytes, when at least one was asked for,
/// means the stream is exhausted.
pub trait ByteRead: Sized {
    /// The bytes this stream has yet to yield, in order. The default, an
    /// exhausted stream, is for implementations outside the proofs' reach;
    /// every implementation the proofs rely on overrides it.
    open spec fn pending(&self) -> Seq<u8> {
        Seq::empty()
    }

    /// Read at most `end - start` bytes into `buf[start..end]`, returning how
    /// many were read.
    fn read(&mut self, buf: &mut Vec<u8>, start: usize, end: usize) -> (r: Result<
        usize,
        StreamError,
    >)
        requires
            start <= end <= old(buf)@.len(),
        ensures
            match r {
                Ok(n) => {
                    &&& n <= end - start
                    &&& n <= old(self).pending().len()
                    &&& final(self).pending() == old(self).pending().skip(n as int)
                    &&& final(buf)@.len() == old(buf)@.len()
                    &&& (forall|i: int|
                        0 <= i < old(buf)@.len() && !(start <= i < start + n)
                            ==> final(buf)@[i] == old(buf)@[i])
                    &&& (forall|i: int|
                        0 <= i < n ==> final(buf)@[start + i] == old(self).pending()[i])
                    &&& (n == 0 && start < end ==> old(self).pending().len() == 0)
                },
                Err(_) => {
                    &&& final(self).pending() == old(self).pending()
                    &&& final(buf)@ == old(buf)@
                },
            },
    ;
}

/// A writable byte stream, abstracted as the sequence of bytes handed to the
/// peer so far.
///
/// `sent()` grows by exactly the bytes a successful write accepted. A write
/// may accept fewer bytes than offered; accepting zero when at least one was
/// offered means the stream takes no more (the peer is gone). A failed write
/// accepts nothing.
pub trait ByteWrite: Sized {
    /// The bytes handed to the peer so far, in order. The default, an empty
    /// record, is for implementations outside the proofs' reach; every
    /// implementation the proofs rely on overrides it.
    open spec fn sent(&self) -> Seq<u8> {
        Seq::empty()
    }

    /// Write at most `end - start` bytes out of `buf[start..end]`, returning
    /// how many were accepted.
    fn write(&mut self, buf: &Vec<u8>, start: usize, end: usize) -> (r: Result<
        usize,
        StreamError,
    >)
        requires
            start <= end <= buf@.len(),
        ensures
            match r {
                Ok(n) => {
                    &&& n <= end - start
                    &&& final(self).sent() == old(self).sent() + buf@.subrange(
                        start as int,
                        start + n,
                    )
                },
                Err(_) => final(self).sent() == old(self).sent(),
            },
    ;
}

} // verus!
