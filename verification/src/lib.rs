//! Point-to-point, single-producer/single-consumer message channels over byte
//! streams. Each message travels as a self-delimiting frame: an eight-byte
//! length prefix in a configurable byte order, followed by the message's
//! encoding. The receiving side reassembles a frame across any number of
//! partial reads, tolerating sources that report "not ready" instead of data,
//! and rejects frames whose declared length exceeds a configurable ceiling
//! before reading any payload byte.

mod channel;
mod codec;
pub mod endian;
mod error;
pub mod frame;
mod memory;
mod message;
mod receiver;
mod sender;
mod stream;
mod util;

pub use channel::{ChannelRecv, ChannelSend};
pub use codec::Codec;
pub use endian::Endian;
pub use message::{ChatMessage, ChatMessageView};
pub use receiver::{Receiver, ReceiverBuilder, TypedReceiverBuilder, DEFAULT_MAX_SIZE};
pub use sender::{Buffering, Sender, SenderBuilder, TypedSenderBuilder};
pub use error::{RecvError, SendError, StreamError};
pub use memory::{IoStep, MemoryReader, MemoryWriter};
pub use stream::{ByteRead, ByteWrite};
