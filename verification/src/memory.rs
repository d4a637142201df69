use crate::error::StreamError;
use crate::stream::{ByteRead, ByteWrite};
use crate::util::reverse_vec;
use vstd::prelude::*;

verus! {

/// One scripted behaviour of an in-memory stream, consumed per call.
///
/// `NotReady` makes the next call fail with the non-blocking signal;
/// `Serve(n)` caps the next call at `n` bytes. A reader never hands out zero
/// bytes while it still has some (a zero-byte read means exhaustion), so a
/// reader treats `Serve(0)` as `Serve(1)`; a writer takes `Serve(0)`
/// literally and thereby plays a peer that accepts nothing.
#[derive(Clone, Copy, PartialEq, Eq, Structural, Debug)]
pub enum IoStep {
    NotReady,
    Serve(usize),
}

/// An in-memory byte source: the loop-back counterpart of a real stream.
///
/// It yields a fixed byte sequence, by default as fast as asked; a script can
/// break the flow into arbitrary chunks and interleave "not ready" signals,
/// which is how partial and non-blocking reads are exercised without a
/// network. Bytes and script are stored last-to-first so that serving pops
/// them off the back.
pub struct MemoryReader {
    rdata: Vec<u8>,
    rscript: Vec<IoStep>,
}

impl MemoryReader {
    /// A reader that will yield `data`, shaped by `script` (first step
    /// first); once the script is used up, reads are served in full.
    pub fn new(data: Vec<u8>, script: Vec<IoStep>) -> (r: MemoryReader)
        ensures
            r.pending() == data@,
            r.steps() == script@.len(),
    {
        let r = MemoryReader {
            rdata: reverse_vec(data.as_slice()),
            rscript: reverse_vec(script.as_slice()),
        };
        proof {
            assert(r.rdata@.reverse() =~= data@);
        }
        r
    }

    /// How many bytes have not been handed out yet.
    pub fn remaining(&self) -> (n: usize)
        ensures
            n == self.pending().len(),
    {
        self.rdata.len()
    }

    /// How many scripted steps are still to play; each read consumes one,
    /// and with none left reads are served in full.
    pub closed spec fn steps(&self) -> nat {
        self.rscript@.len()
    }
}

impl ByteRead for MemoryReader {
    closed spec fn pending(&self) -> Seq<u8> {
        self.rdata@.reverse()
    }

    fn read(&mut self, buf: &mut Vec<u8>, start: usize, end: usize) -> (r: Result<
        usize,
        StreamError,
    >)
        ensures
            old(self).steps() == 0 ==> final(self).steps() == 0,
            old(self).steps() > 0 ==> final(self).steps() == old(self).steps() - 1,
            old(self).steps() == 0 ==> (r matches Ok(n) && n as int == if end - start <= old(
                self,
            ).pending().len() {
                end - start
            } else {
                old(self).pending().len() as int
            }),
    {
        let want = end - start;
        let avail = self.rdata.len();
        let mut limit: usize = if want < avail {
            want
        } else {
            avail
        };
        match self.rscript.pop() {
            Some(IoStep::NotReady) => {
                return Err(StreamError::NotReady);
            },
            Some(IoStep::Serve(n)) => {
                let cap = if n == 0 {
                    1
                } else {
                    n
                };
                if cap < limit {
                    limit = cap;
                }
            },
            None => {},
        }
        let ghost data0 = self.rdata@;
        let ghost buf0 = buf@;
        let ghost script1 = self.rscript@;
        let mut i: usize = 0;
        while i < limit
            invariant
                i <= limit,
                limit <= data0.len(),
                self.rscript@ == script1,
                start + limit <= end,
                end <= buf0.len(),
                self.rdata@ == data0.take(data0.len() - i),
                buf@.len() == buf0.len(),
                forall|j: int|
                    0 <= j < buf0.len() && !(start <= j < start + i) ==> buf@[j] == buf0[j],
                forall|j: int| 0 <= j < i ==> #[trigger] buf@[start + j] == data0[data0.len() - 1
                    - j],
            decreases limit - i,
        {
            let b = self.rdata.pop().unwrap();
            proof {
                assert(self.rdata@ =~= data0.take(data0.len() - (i + 1)));
            }
            buf[start + i] = b;
            i = i + 1;
        }
        proof {
            assert(self.rdata@.reverse() =~= data0.reverse().skip(limit as int));
            assert(forall|j: int|
                0 <= j < limit ==> buf@[start + j] == data0.reverse()[j]);
        }
        Ok(limit)
    }
}

/// An in-memory byte sink: collects everything a sender pushes through it.
///
/// A script can cap single writes or make them fail, playing a congested or
/// closed peer; once the script is used up, writes are accepted in full.
pub struct MemoryWriter {
    data: Vec<u8>,
    rscript: Vec<IoStep>,
}

impl MemoryWriter {
    /// A writer shaped by `script` (first step first); once the script is
    /// used up, writes are accepted in full.
    pub fn new(script: Vec<IoStep>) -> (r: MemoryWriter)
        ensures
            r.sent() == Seq::<u8>::empty(),
            r.steps() == script@.len(),
    {
        let r = MemoryWriter { data: Vec::new(), rscript: reverse_vec(script.as_slice()) };
        r
    }

    /// Everything accepted so far.
    pub fn contents(&self) -> (r: &Vec<u8>)
        ensures
            r@ == self.sent(),
    {
        &self.data
    }

    /// How many scripted steps are still to play; each write consumes one,
    /// and with none left writes are accepted in full.
    pub closed spec fn steps(&self) -> nat {
        self.rscript@.len()
    }
}

impl ByteWrite for MemoryWriter {
    closed spec fn sent(&self) -> Seq<u8> {
        self.data@
    }

    fn write(&mut self, buf: &Vec<u8>, start: usize, end: usize) -> (r: Result<
        usize,
        StreamError,
    >)
        ensures
            old(self).steps() == 0 ==> final(self).steps() == 0,
            old(self).steps() > 0 ==> final(self).steps() == old(self).steps() - 1,
            old(self).steps() == 0 ==> (r matches Ok(n) && n == end - start),
    {
        let mut limit: usize = end - start;
        match self.rscript.pop() {
            Some(IoStep::NotReady) => {
                return Err(StreamError::NotReady);
            },
            Some(IoStep::Serve(n)) => {
                if n < limit {
                    limit = n;
                }
            },
            None => {},
        }
        let ghost sent0 = self.data@;
        let ghost script1 = self.rscript@;
        let mut i: usize = 0;
        while i < limit
            invariant
                i <= limit,
                start + limit <= end,
                end <= buf@.len(),
                self.rscript@ == script1,
                self.data@ == sent0 + buf@.subrange(start as int, start + i),
            decreases limit - i,
        {
            self.data.push(buf[start + i]);
            proof {
                assert(self.data@ =~= sent0 + buf@.subrange(start as int, start + i + 1));
            }
            i = i + 1;
        }
        Ok(limit)
    }
}

} // verus!
