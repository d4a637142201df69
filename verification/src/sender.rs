use crate::codec::Codec;
use crate::endian::{is_wire_order, u64_to_bytes, Endian};
use crate::error::{SendError, StreamError};
use crate::frame::frame_bytes;
use crate::stream::ByteWrite;
use crate::util::push_all;
use core::marker::PhantomData;
use vstd::prelude::*;
use vstd::slice::{slice_subrange, slice_to_vec};

verus! {

/// The two buffering strategies: `Buffered` collects frames in an internal
/// buffer until an explicit `flush`, trading latency for fewer stream calls;
/// `Realtime` pushes every frame to the stream at once.
#[derive(Clone, Copy, PartialEq, Eq, Structural, Debug)]
pub enum Buffering {
    Buffered,
    Realtime,
}

/// The sending side of a channel.
///
/// `send` turns a value into one frame — eight length bytes in the configured
/// byte order, then the value's encoding — and puts it on the wire. The
/// `wire()` abstraction is everything written logically; `delivered()` is the
/// part the peer has been handed. In `Realtime` mode the two always agree; in
/// `Buffered` mode `flush` closes the gap.
pub struct Sender<T: Codec, W: ByteWrite> {
    writer: W,
    endian: Endian,
    mode: Buffering,
    queue: Vec<u8>,
    _marker: PhantomData<T>,
}

/// Write `data[*pos..]` to the stream, advancing `pos` past what was
/// accepted, until all of it is out or the stream fails.
#[verifier::loop_isolation(false)]
fn write_from<W: ByteWrite>(writer: &mut W, data: &Vec<u8>, pos: &mut usize) -> (r: Result<
    (),
    SendError,
>)
    requires
        *old(pos) <= data@.len(),
    ensures
        *old(pos) <= *final(pos) <= data@.len(),
        final(writer).sent() == old(writer).sent() + data@.subrange(
            *old(pos) as int,
            *final(pos) as int,
        ),
        match r {
            Ok(()) => *final(pos) == data@.len(),
            Err(SendError::IoError(_)) => *final(pos) < data@.len(),
            _ => false,
        },
{
    let ghost sent0 = writer.sent();
    let ghost pos0 = *pos;
    let n = data.len();
    while *pos < n
        invariant
            pos0 <= *pos <= n,
            n == data@.len(),
            writer.sent() == sent0 + data@.subrange(pos0 as int, *pos as int),
        decreases n - *pos,
    {
        match writer.write(data, *pos, n) {
            Ok(c) => {
                proof {
                    assert(sent0 + data@.subrange(pos0 as int, *pos as int) + data@.subrange(
                        *pos as int,
                        *pos + c,
                    ) =~= sent0 + data@.subrange(pos0 as int, *pos + c));
                }
                if c == 0 {
                    // A stream that takes nothing: surface it as an
                    // I/O failure, like any other write failure.
                    return Err(SendError::IoError(StreamError::Closed));
                }
                *pos = *pos + c;
            },
            Err(se) => {
                return Err(SendError::IoError(se));
            },
        }
    }
    Ok(())
}

/// Copy of `v` without its first `start` bytes.
fn tail_from(v: &Vec<u8>, start: usize) -> (r: Vec<u8>)
    requires
        start <= v@.len(),
    ensures
        r@ == v@.skip(start as int),
{
    let s = slice_subrange(v.as_slice(), start, v.len());
    let r = slice_to_vec(s);
    proof {
        assert(r@ =~= v@.skip(start as int));
    }
    r
}

impl<T: Codec, W: ByteWrite> Sender<T, W> {
    /// A sender in the state its contracts speak of: byte order resolved,
    /// and nothing queued in realtime mode.
    pub closed spec fn wf(&self) -> bool {
        &&& is_wire_order(self.endian)
        &&& (self.mode is Realtime ==> self.queue@.len() == 0)
    }

    /// The configured byte order, already resolved to `Big` or `Little`.
    pub closed spec fn endian_spec(&self) -> Endian {
        self.endian
    }

    /// The configured buffering mode.
    pub closed spec fn mode_spec(&self) -> Buffering {
        self.mode
    }

    /// The bytes the peer has been handed so far.
    pub closed spec fn delivered(&self) -> Seq<u8> {
        self.writer.sent()
    }

    /// Every byte written logically: what the peer has, then what still
    /// waits in the internal buffer for a flush.
    pub closed spec fn wire(&self) -> Seq<u8> {
        self.writer.sent() + self.queue@
    }

    /// A look at the underlying stream, for callers that own its other side.
    pub fn writer(&self) -> (r: &W)
        ensures
            r.sent() == self.delivered(),
    {
        &self.writer
    }

    /// Encode `value` and put its frame on the wire. In `Buffered` mode the
    /// frame waits for `flush` and the peer sees nothing yet; in `Realtime`
    /// mode the whole frame is handed to the stream before the call returns,
    /// and a stream failure can leave a prefix of the frame delivered.
    pub fn send(&mut self, value: &T) -> (r: Result<(), SendError>)
        requires
            old(self).wf(),
        ensures
            final(self).wf(),
            final(self).endian_spec() == old(self).endian_spec(),
            final(self).mode_spec() == old(self).mode_spec(),
            ({
                let e = old(self).endian_spec();
                match r {
                    Ok(()) => {
                        &&& T::spec_encodable(value@, e)
                        &&& final(self).wire() == old(self).wire() + frame_bytes(
                            e,
                            T::spec_encode(value@, e),
                        )
                        &&& (old(self).mode_spec() is Buffered ==> final(self).delivered() == old(
                            self,
                        ).delivered())
                        &&& (old(self).mode_spec() is Realtime ==> final(self).delivered()
                            == final(self).wire())
                    },
                    Err(SendError::SerializationError) => {
                        &&& !T::spec_encodable(value@, e)
                        &&& final(self).wire() == old(self).wire()
                        &&& final(self).delivered() == old(self).delivered()
                    },
                    Err(SendError::IoError(_)) => {
                        &&& old(self).mode_spec() is Realtime
                        &&& T::spec_encodable(value@, e)
                        &&& (exists|k: int|
                            0 <= k <= frame_bytes(e, T::spec_encode(value@, e)).len()
                                && final(self).wire() == old(self).wire() + frame_bytes(
                                e,
                                T::spec_encode(value@, e),
                            ).take(k))
                        &&& final(self).delivered() == final(self).wire()
                    },
                    Err(SendError::Disconnected) => false,
                }
            }),
    {
        let e = self.endian;
        match value.encode(e) {
            None => Err(SendError::SerializationError),
            Some(payload) => {
                let len64 = payload.len() as u64;
                let prefix = u64_to_bytes(e, len64);
                let ghost fspec = frame_bytes(e, T::spec_encode(value@, e));
                proof {
                    assert(prefix@ + payload@ =~= fspec);
                }
                match self.mode {
                    Buffering::Buffered => {
                        push_all(&mut self.queue, prefix.as_slice());
                        push_all(&mut self.queue, payload.as_slice());
                        proof {
                            assert(self.writer.sent() + self.queue@ =~= old(self).writer.sent()
                                + old(self).queue@ + fspec);
                        }
                        Ok(())
                    },
                    Buffering::Realtime => {
                        let mut fbytes = prefix;
                        push_all(&mut fbytes, payload.as_slice());
                        let mut pos: usize = 0;
                        let r = write_from(&mut self.writer, &fbytes, &mut pos);
                        proof {
                            assert(self.queue@.len() == 0);
                            assert(fbytes@.subrange(0, pos as int) =~= fspec.take(pos as int));
                            assert(self.writer.sent() + self.queue@ =~= old(self).writer.sent()
                                + old(self).queue@ + fspec.take(pos as int));
                            assert(fspec.take(fspec.len() as int) =~= fspec);
                        }
                        match r {
                            Ok(()) => Ok(()),
                            Err(err) => Err(err),
                        }
                    },
                }
            },
        }
    }

    /// Push every buffered byte to the stream. Only the stream can refuse,
    /// so when nothing is buffered — in particular on every `Realtime`
    /// flush — the call succeeds. On success the peer has the whole wire; on
    /// failure whatever the stream accepted is dropped from the buffer and
    /// the rest is kept, so a later flush resumes where this one stopped.
    pub fn flush(&mut self) -> (r: Result<(), SendError>)
        requires
            old(self).wf(),
        ensures
            final(self).wf(),
            final(self).endian_spec() == old(self).endian_spec(),
            final(self).mode_spec() == old(self).mode_spec(),
            final(self).wire() == old(self).wire(),
            old(self).delivered() == old(self).wire() ==> r is Ok,
            old(self).mode_spec() is Realtime ==> r is Ok,
            match r {
                Ok(()) => final(self).delivered() == old(self).wire(),
                Err(SendError::IoError(_)) => {
                    &&& old(self).delivered().len() <= final(self).delivered().len()
                    &&& final(self).delivered().len() < old(self).wire().len()
                    &&& final(self).delivered() == old(self).wire().take(
                        final(self).delivered().len() as int,
                    )
                },
                _ => false,
            },
    {
        let mut pos: usize = 0;
        let r = write_from(&mut self.writer, &self.queue, &mut pos);
        let rest = tail_from(&self.queue, pos);
        self.queue = rest;
        proof {
            assert(self.writer.sent() + self.queue@ =~= old(self).writer.sent() + old(
                self,
            ).queue@);
            assert(old(self).queue@.subrange(0, pos as int) =~= old(self).queue@.take(pos as int));
            assert(self.writer.sent() =~= (old(self).writer.sent() + old(self).queue@).take(
                self.writer.sent().len() as int,
            ));
        }
        match r {
            Ok(()) => {
                proof {
                    assert(self.writer.sent() =~= old(self).writer.sent() + old(self).queue@);
                }
                Ok(())
            },
            Err(err) => Err(err),
        }
    }
}

/// A convenient way of initializing senders.
pub struct SenderBuilder;

/// The options picked so far for a sender of `T` values.
pub struct TypedSenderBuilder<T> {
    endian: Endian,
    mode: Buffering,
    _marker: PhantomData<T>,
}

impl SenderBuilder {
    /// Begin building a new, buffered channel.
    pub fn build() -> (b: TypedSenderBuilder<()>)
        ensures
            b.endian_spec() == Endian::Big,
            b.mode_spec() is Buffered,
    {
        Self::buffered()
    }

    /// Begin building a new, buffered channel.
    pub fn buffered() -> (b: TypedSenderBuilder<()>)
        ensures
            b.endian_spec() == Endian::Big,
            b.mode_spec() is Buffered,
    {
        TypedSenderBuilder { endian: Endian::Big, mode: Buffering::Buffered, _marker: PhantomData }
    }

    /// Begin building a new, non-buffered channel.
    pub fn realtime() -> (b: TypedSenderBuilder<()>)
        ensures
            b.endian_spec() == Endian::Big,
            b.mode_spec() is Realtime,
    {
        TypedSenderBuilder { endian: Endian::Big, mode: Buffering::Realtime, _marker: PhantomData }
    }
}

impl<T> TypedSenderBuilder<T> {
    /// The byte order picked so far.
    pub closed spec fn endian_spec(&self) -> Endian {
        self.endian
    }

    /// The buffering mode picked so far.
    pub closed spec fn mode_spec(&self) -> Buffering {
        self.mode
    }

    /// Specify the type to send.
    pub fn with_type<U>(self) -> (b: TypedSenderBuilder<U>)
        ensures
            b.endian_spec() == self.endian_spec(),
            b.mode_spec() == self.mode_spec(),
    {
        TypedSenderBuilder { endian: self.endian, mode: self.mode, _marker: PhantomData }
    }

    /// Specify the underlying writer type; the writer itself is handed to
    /// `build`.
    pub fn with_writer<X: ByteWrite>(self) -> (b: TypedSenderBuilder<T>)
        ensures
            b.endian_spec() == self.endian_spec(),
            b.mode_spec() == self.mode_spec(),
    {
        TypedSenderBuilder { endian: self.endian, mode: self.mode, _marker: PhantomData }
    }

    /// Specify the byte order of the length prefix.
    pub fn with_endianness(self, endian: Endian) -> (b: TypedSenderBuilder<T>)
        ensures
            b.endian_spec() == endian,
            b.mode_spec() == self.mode_spec(),
    {
        TypedSenderBuilder { endian, mode: self.mode, _marker: PhantomData }
    }
}

impl<T: Codec> TypedSenderBuilder<T> {
    /// Initialize the sender with the current variables, wrapping `writer`.
    pub fn build<W: ByteWrite>(self, writer: W) -> (s: Sender<T, W>)
        ensures
            s.wf(),
            is_wire_order(s.endian_spec()),
            is_wire_order(self.endian_spec()) ==> s.endian_spec() == self.endian_spec(),
            s.mode_spec() == self.mode_spec(),
            s.delivered() == writer.sent(),
            s.wire() == writer.sent(),
    {
        let endian = self.endian.resolve();
        let s = Sender { writer, endian, mode: self.mode, queue: Vec::new(), _marker: PhantomData };
        proof {
            assert(s.wire() =~= s.delivered());
        }
        s
    }
}

} // verus!
