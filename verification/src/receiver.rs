use crate::codec::Codec;
use crate::endian::{
    is_wire_order, lemma_u64_bytes_roundtrip, lemma_u64_value_roundtrip, u64_bytes, u64_from_bytes,
    Endian,
};
use crate::error::RecvError;
use crate::frame::{frame_payload, is_complete_frame};
use crate::sender::Buffering;
use crate::stream::ByteRead;
use core::marker::PhantomData;
use vstd::prelude::*;
use vstd::slice::slice_subrange;

verus! {

/// The default ceiling on a declared frame length: 64 MiB.
pub const DEFAULT_MAX_SIZE: usize = 64 * 0x100_000;

/// The receiving side of a channel.
///
/// `recv` assembles one frame — eight length bytes in the configured byte
/// order, then as many payload bytes as they declare — across any number of
/// stream reads, and decodes the payload into a value. A read that fails
/// leaves every byte gathered so far in place, so the caller may simply call
/// again when the stream is ready; a declared length above the configured
/// maximum is rejected before any payload byte is read.
pub struct Receiver<T: Codec, R: ByteRead> {
    reader: R,
    endian: Endian,
    max_size: usize,
    buffer: Vec<u8>,
    bytes_read: usize,
    bytes_to_read: usize,
    prefix: Vec<u8>,
    prefix_read: usize,
    _marker: PhantomData<T>,
}

/// Read from the stream into `buf[*filled..upto]` until that range is full,
/// the stream is exhausted, or it fails; `filled` advances past every byte
/// obtained, so an interrupted call loses nothing.
#[verifier::loop_isolation(false)]
fn fill_upto<R: ByteRead>(reader: &mut R, buf: &mut Vec<u8>, filled: &mut usize, upto: usize) -> (r:
    Result<(), RecvError>)
    requires
        *old(filled) <= upto <= old(buf)@.len(),
    ensures
        final(buf)@.len() == old(buf)@.len(),
        *old(filled) <= *final(filled) <= upto,
        *final(filled) - *old(filled) <= old(reader).pending().len(),
        final(reader).pending() == old(reader).pending().skip(
            (*final(filled) - *old(filled)) as int,
        ),
        (forall|i: int|
            0 <= i < old(buf)@.len() && !(*old(filled) <= i < *final(filled)) ==> final(buf)@[i]
                == old(buf)@[i]),
        (forall|i: int|
            *old(filled) <= i < *final(filled) ==> final(buf)@[i] == old(reader).pending()[i - *old(
                filled,
            )]),
        match r {
            Ok(()) => *final(filled) == upto,
            Err(RecvError::Disconnected) => *final(filled) < upto
                && final(reader).pending().len() == 0,
            Err(RecvError::IoError(_)) => *final(filled) < upto,
            _ => false,
        },
{
    while *filled < upto
        invariant
            *old(filled) <= *filled <= upto,
            buf@.len() == old(buf)@.len(),
            *filled - *old(filled) <= old(reader).pending().len(),
            reader.pending() == old(reader).pending().skip((*filled - *old(filled)) as int),
            (forall|i: int|
                0 <= i < buf@.len() && !(*old(filled) <= i < *filled) ==> buf@[i] == old(
                    buf,
                )@[i]),
            (forall|i: int|
                *old(filled) <= i < *filled ==> buf@[i] == old(reader).pending()[i - *old(
                    filled,
                )]),
        decreases upto - *filled,
    {
        let ghost pend_here = reader.pending();
        let ghost buf_here = buf@;
        let ghost filled_here = *filled;
        match reader.read(buf, *filled, upto) {
            Ok(n) => {
                if n == 0 {
                    proof {
                        assert(reader.pending() =~= old(reader).pending().skip(
                            (*filled - *old(filled)) as int,
                        ));
                    }
                    return Err(RecvError::Disconnected);
                }
                proof {
                    assert(reader.pending() =~= old(reader).pending().skip(
                        (*filled - *old(filled) + n) as int,
                    ));
                    assert(forall|i: int|
                        filled_here <= i < filled_here + n ==> buf@[i] == pend_here[i
                            - filled_here]);
                }
                *filled = *filled + n;
            },
            Err(se) => {
                return Err(RecvError::IoError(se));
            },
        }
    }
    Ok(())
}

impl<T: Codec, R: ByteRead> Receiver<T, R> {
    /// A receiver in the state its contracts speak of.
    pub closed spec fn wf(&self) -> bool {
        &&& is_wire_order(self.endian)
        &&& self.prefix@.len() == 8
        &&& self.prefix_read <= 8
        &&& self.bytes_to_read <= self.buffer@.len()
        &&& self.bytes_to_read <= self.max_size
        &&& self.bytes_read <= self.bytes_to_read
        &&& (self.bytes_to_read == 0 ==> self.bytes_read == 0)
        &&& (self.bytes_to_read > 0 ==> self.prefix_read == 0)
    }

    /// The configured byte order, already resolved to `Big` or `Little`.
    pub closed spec fn endian_spec(&self) -> Endian {
        self.endian
    }

    /// The configured ceiling on declared frame lengths.
    pub closed spec fn max_spec(&self) -> usize {
        self.max_size
    }

    /// The bytes the underlying stream has yet to yield.
    pub closed spec fn pending(&self) -> Seq<u8> {
        self.reader.pending()
    }

    /// The bytes of the frame in flight that have arrived so far, length
    /// prefix included; empty when no frame is in flight.
    pub closed spec fn assembled(&self) -> Seq<u8> {
        if self.bytes_to_read == 0 {
            self.prefix@.take(self.prefix_read as int)
        } else {
            u64_bytes(self.endian, self.bytes_to_read as u64) + self.buffer@.take(
                self.bytes_read as int,
            )
        }
    }

    /// A look at the underlying stream, for callers that own its other side.
    pub fn reader(&self) -> (r: &R)
        ensures
            r.pending() == self.pending(),
    {
        &self.reader
    }

    /// Receive one value.
    ///
    /// The call consumes some prefix `taken` of the stream's pending bytes
    /// and never anything past the frame in flight. On `Ok`, what had been
    /// assembled plus what was consumed is one complete frame whose payload
    /// decodes to the returned value, and the receiver is ready for the next
    /// frame. On `TooLarge`, exactly the eight prefix bytes were gathered and
    /// no payload byte was consumed. On a stream failure every byte gathered
    /// so far is retained, so the same call can be retried; a `Disconnected`
    /// stream has nothing more to yield. On `SerializationError` the frame
    /// arrived whole but its payload is no value's encoding.
    #[verifier::rlimit(50)]
    pub fn recv(&mut self) -> (r: Result<T, RecvError>)
        requires
            old(self).wf(),
        ensures
            final(self).wf(),
            final(self).endian_spec() == old(self).endian_spec(),
            final(self).max_spec() == old(self).max_spec(),
            ({
                let e = old(self).endian_spec();
                let max = old(self).max_spec();
                let taken = old(self).pending().len() - final(self).pending().len();
                let gathered = old(self).assembled() + old(self).pending().take(taken as int);
                &&& 0 <= taken <= old(self).pending().len()
                &&& final(self).pending() == old(self).pending().skip(taken as int)
                &&& old(self).assembled() + old(self).pending() == gathered + final(self).pending()
                &&& match r {
                    Ok(v) => {
                        &&& is_complete_frame(e, max, gathered)
                        &&& T::spec_encodable(v@, e)
                        &&& T::spec_encode(v@, e) == frame_payload(gathered)
                        &&& final(self).assembled().len() == 0
                    },
                    Err(RecvError::TooLarge(l)) => {
                        &&& gathered == u64_bytes(e, l)
                        &&& l > max
                        &&& final(self).assembled().len() == 0
                    },
                    Err(RecvError::IoError(_)) => {
                        &&& final(self).assembled() == gathered
                        &&& !is_complete_frame(e, max, gathered)
                    },
                    Err(RecvError::Disconnected) => {
                        &&& final(self).assembled() == gathered
                        &&& !is_complete_frame(e, max, gathered)
                        &&& final(self).pending().len() == 0
                    },
                    Err(RecvError::SerializationError) => {
                        &&& is_complete_frame(e, max, gathered)
                        &&& (forall|w: T::V|
                            T::spec_encodable(w, e) ==> T::spec_encode(w, e) != frame_payload(
                                gathered,
                            ))
                        &&& final(self).assembled().len() == 0
                    },
                }
            }),
    {
        let ghost pend0 = old(self).pending();
        let ghost a0 = old(self).assembled();
        let e = self.endian;
        let ghost mut taken1: int = 0;
        if self.bytes_to_read == 0 {
            let ghost pr0 = self.prefix_read as int;
            let pr = fill_upto(&mut self.reader, &mut self.prefix, &mut self.prefix_read, 8);
            proof {
                taken1 = self.prefix_read - pr0;
                assert(self.prefix@.take(self.prefix_read as int) =~= a0 + pend0.take(taken1));
                assert(a0 + pend0 =~= (a0 + pend0.take(taken1)) + pend0.skip(taken1));
            }
            if let Err(err) = pr {
                proof {
                    assert((a0 + pend0.take(taken1)).len() < 8);
                }
                return Err(err);
            }
            let len64 = u64_from_bytes(e, self.prefix.as_slice());
            self.prefix_read = 0;
            proof {
                assert(self.prefix@.take(8) =~= self.prefix@);
                lemma_u64_value_roundtrip(e, self.prefix@);
                assert(a0 + pend0.take(taken1) == u64_bytes(e, len64));
            }
            if len64 > self.max_size as u64 {
                return Err(RecvError::TooLarge(len64));
            }
            let length = len64 as usize;
            if self.buffer.len() < length {
                self.buffer.resize(length, 0u8);
            }
            self.bytes_to_read = length;
            self.bytes_read = 0;
        } else {
            proof {
                assert(a0 + pend0.take(0) =~= a0);
            }
        }
        // One frame is now declared: `bytes_to_read` bytes follow (possibly
        // none), of which `bytes_read` have already arrived.
        let ghost pend_mid = self.reader.pending();
        let ghost buf_mid = self.buffer@;
        let ghost br_mid = self.bytes_read as int;
        let ghost btr = self.bytes_to_read as int;
        proof {
            assert(pend_mid =~= pend0.skip(taken1));
            assert(a0 + pend0.take(taken1) == u64_bytes(e, btr as u64) + buf_mid.take(br_mid));
        }
        let upto = self.bytes_to_read;
        let r2 = fill_upto(&mut self.reader, &mut self.buffer, &mut self.bytes_read, upto);
        let ghost d2 = self.bytes_read - br_mid;
        proof {
            assert(pend0.take(taken1 + d2) =~= pend0.take(taken1) + pend_mid.take(d2));
            assert(self.reader.pending() =~= pend0.skip(taken1 + d2));
            assert(self.buffer@.take(self.bytes_read as int) =~= buf_mid.take(br_mid)
                + pend_mid.take(d2));
            assert(a0 + pend0.take(taken1 + d2) =~= u64_bytes(e, btr as u64) + self.buffer@.take(
                self.bytes_read as int,
            ));
            assert(a0 + pend0 =~= (a0 + pend0.take(taken1 + d2)) + pend0.skip(taken1 + d2));
        }
        let ghost gathered = a0 + pend0.take(taken1 + d2);
        proof {
            lemma_u64_bytes_roundtrip(e, btr as u64);
            assert(gathered.take(8) =~= u64_bytes(e, btr as u64));
        }
        if let Err(err) = r2 {
            proof {
                assert(gathered.len() == 8 + self.bytes_read);
            }
            return Err(err);
        }
        // The frame is complete: reset, then decode its payload.
        let length = self.bytes_to_read;
        self.bytes_to_read = 0;
        self.bytes_read = 0;
        proof {
            assert(frame_payload(gathered) =~= self.buffer@.take(length as int));
            assert(is_complete_frame(e, self.max_size, gathered));
        }
        let payload = slice_subrange(self.buffer.as_slice(), 0, length);
        proof {
            assert(payload@ =~= self.buffer@.take(length as int));
        }
        match T::decode(payload, e) {
            Some(v) => Ok(v),
            None => Err(RecvError::SerializationError),
        }
    }
}

/// A convenient way of initializing receivers.
pub struct ReceiverBuilder;

/// The options picked so far for a receiver of `T` values.
pub struct TypedReceiverBuilder<T> {
    endian: Endian,
    max_size: usize,
    mode: Buffering,
    _marker: PhantomData<T>,
}

impl ReceiverBuilder {
    /// Begin building a new, buffered channel.
    pub fn new() -> (b: TypedReceiverBuilder<()>)
        ensures
            b.endian_spec() == Endian::Big,
            b.max_spec() == DEFAULT_MAX_SIZE,
            b.mode_spec() is Buffered,
    {
        Self::buffered()
    }

    /// Begin building a new, buffered channel.
    pub fn buffered() -> (b: TypedReceiverBuilder<()>)
        ensures
            b.endian_spec() == Endian::Big,
            b.max_spec() == DEFAULT_MAX_SIZE,
            b.mode_spec() is Buffered,
    {
        TypedReceiverBuilder {
            endian: Endian::Big,
            max_size: DEFAULT_MAX_SIZE,
            mode: Buffering::Buffered,
            _marker: PhantomData,
        }
    }

    /// Begin building a new, non-buffered channel.
    pub fn realtime() -> (b: TypedReceiverBuilder<()>)
        ensures
            b.endian_spec() == Endian::Big,
            b.max_spec() == DEFAULT_MAX_SIZE,
            b.mode_spec() is Realtime,
    {
        TypedReceiverBuilder {
            endian: Endian::Big,
            max_size: DEFAULT_MAX_SIZE,
            mode: Buffering::Realtime,
            _marker: PhantomData,
        }
    }
}

impl<T> TypedReceiverBuilder<T> {
    /// The byte order picked so far.
    pub closed spec fn endian_spec(&self) -> Endian {
        self.endian
    }

    /// The frame-size ceiling picked so far.
    pub closed spec fn max_spec(&self) -> usize {
        self.max_size
    }

    /// The buffering preset this builder began with.
    pub closed spec fn mode_spec(&self) -> Buffering {
        self.mode
    }

    /// Specify the type to receive.
    pub fn with_type<U>(self) -> (b: TypedReceiverBuilder<U>)
        ensures
            b.endian_spec() == self.endian_spec(),
            b.max_spec() == self.max_spec(),
            b.mode_spec() == self.mode_spec(),
    {
        TypedReceiverBuilder {
            endian: self.endian,
            max_size: self.max_size,
            mode: self.mode,
            _marker: PhantomData,
        }
    }

    /// Specify the underlying reader type; the reader itself is handed to
    /// `build`.
    pub fn with_reader<S: ByteRead>(self) -> (b: TypedReceiverBuilder<T>)
        ensures
            b.endian_spec() == self.endian_spec(),
            b.max_spec() == self.max_spec(),
            b.mode_spec() == self.mode_spec(),
    {
        TypedReceiverBuilder {
            endian: self.endian,
            max_size: self.max_size,
            mode: self.mode,
            _marker: PhantomData,
        }
    }

    /// Specify the byte order of the length prefix.
    pub fn with_endianness(self, endian: Endian) -> (b: TypedReceiverBuilder<T>)
        ensures
            b.endian_spec() == endian,
            b.max_spec() == self.max_spec(),
            b.mode_spec() == self.mode_spec(),
    {
        TypedReceiverBuilder {
            endian,
            max_size: self.max_size,
            mode: self.mode,
            _marker: PhantomData,
        }
    }

    /// Specify the max size to be allocated when receiving.
    pub fn with_max_size(self, max_size: usize) -> (b: Self)
        ensures
            b.endian_spec() == self.endian_spec(),
            b.max_spec() == max_size,
            b.mode_spec() == self.mode_spec(),
    {
        TypedReceiverBuilder {
            endian: self.endian,
            max_size,
            mode: self.mode,
            _marker: PhantomData,
        }
    }
}

impl<T: Codec> TypedReceiverBuilder<T> {
    /// Initialize the receiver with the current variables, wrapping `reader`.
    pub fn build<R: ByteRead>(self, reader: R) -> (r: Receiver<T, R>)
        ensures
            r.wf(),
            is_wire_order(r.endian_spec()),
            is_wire_order(self.endian_spec()) ==> r.endian_spec() == self.endian_spec(),
            r.max_spec() == self.max_spec(),
            r.assembled().len() == 0,
            r.pending() == reader.pending(),
    {
        let endian = self.endian.resolve();
        let mut prefix: Vec<u8> = Vec::new();
        prefix.resize(8, 0u8);
        Receiver {
            reader,
            endian,
            max_size: self.max_size,
            buffer: Vec::new(),
            bytes_read: 0,
            bytes_to_read: 0,
            prefix,
            prefix_read: 0,
            _marker: PhantomData,
        }
    }
}

} // verus!
