use crate::codec::Codec;
use crate::endian::Endian;
use crate::util::push_all;
use vstd::prelude::*;
use vstd::slice::{slice_subrange, slice_to_vec};

verus! {

/// A small two-variant message type: a line of text to say, or a goodbye.
///
/// It ships with the library as a worked example of the [`Codec`] capability:
/// one tag byte picks the variant, and whatever follows the tag of `Say` is
/// the text. Applications define their own message types the same way.
#[derive(PartialEq, Eq, Debug)]
pub enum ChatMessage {
    Say(Vec<u8>),
    Leave,
}

/// The abstract value of a [`ChatMessage`].
pub enum ChatMessageView {
    Say(Seq<u8>),
    Leave,
}

impl View for ChatMessage {
    type V = ChatMessageView;

    open spec fn view(&self) -> ChatMessageView {
        match self {
            ChatMessage::Say(m) => ChatMessageView::Say(m@),
            ChatMessage::Leave => ChatMessageView::Leave,
        }
    }
}

impl Codec for ChatMessage {
    open spec fn spec_encode(v: ChatMessageView, e: Endian) -> Seq<u8> {
        match v {
            ChatMessageView::Say(m) => seq![0u8] + m,
            ChatMessageView::Leave => seq![1u8],
        }
    }

    open spec fn spec_encodable(v: ChatMessageView, e: Endian) -> bool {
        true
    }

    fn encode(&self, e: Endian) -> (r: Option<Vec<u8>>) {
        match self {
            ChatMessage::Say(m) => {
                let mut out: Vec<u8> = Vec::new();
                out.push(0u8);
                push_all(&mut out, m.as_slice());
                proof {
                    assert(out@ =~= seq![0u8] + m@);
                }
                Some(out)
            },
            ChatMessage::Leave => {
                let mut out: Vec<u8> = Vec::new();
                out.push(1u8);
                proof {
                    assert(out@ =~= seq![1u8]);
                }
                Some(out)
            },
        }
    }

    fn decode(bytes: &[u8], e: Endian) -> (r: Option<ChatMessage>) {
        if bytes.len() == 0 {
            proof {
                assert forall|w: ChatMessageView|
                    Self::spec_encode(w, e) != bytes@ by {
                    match w {
                        ChatMessageView::Say(m) => {
                            assert(Self::spec_encode(w, e).len() == 1 + m.len());
                        },
                        ChatMessageView::Leave => {
                            assert(Self::spec_encode(w, e).len() == 1);
                        },
                    }
                }
            }
            None
        } else {
            let tag = bytes[0];
            if tag == 0 {
                let tail = slice_to_vec(slice_subrange(bytes, 1, bytes.len()));
                let m = ChatMessage::Say(tail);
                proof {
                    assert(Self::spec_encode(m@, e) =~= bytes@);
                }
                Some(m)
            } else if tag == 1 && bytes.len() == 1 {
                proof {
                    assert(Self::spec_encode(ChatMessage::Leave@, e) =~= bytes@);
                }
                Some(ChatMessage::Leave)
            } else {
                proof {
                    assert forall|w: ChatMessageView|
                        Self::spec_encode(w, e) != bytes@ by {
                        match w {
                            ChatMessageView::Say(m) => {
                                assert(Self::spec_encode(w, e)[0] == 0u8);
                            },
                            ChatMessageView::Leave => {
                                assert(Self::spec_encode(w, e).len() == 1);
                            },
                        }
                    }
                }
                None
            }
        }
    }

    proof fn lemma_encode_injective(v: ChatMessageView, w: ChatMessageView, e: Endian) {
        match v {
            ChatMessageView::Say(m1) => match w {
                ChatMessageView::Say(m2) => {
                    let s1 = seq![0u8] + m1;
                    let s2 = seq![0u8] + m2;
                    assert(Self::spec_encode(v, e) == s1);
                    assert(Self::spec_encode(w, e) == s2);
                    assert(s1 == s2);
                    assert(s1.len() == 1 + m1.len());
                    assert(s2.len() == 1 + m2.len());
                    assert(m1.len() == m2.len());
                    assert forall|i: int| 0 <= i < m1.len() implies m1[i] == m2[i] by {
                        assert(m1[i] == s1[i + 1]);
                        assert(m2[i] == s2[i + 1]);
                    }
                    assert(m1 =~= m2);
                },
                ChatMessageView::Leave => {
                    assert(Self::spec_encode(v, e)[0] == 0u8);
                    assert(Self::spec_encode(w, e)[0] == 1u8);
                },
            },
            ChatMessageView::Leave => match w {
                ChatMessageView::Say(m2) => {
                    assert(Self::spec_encode(v, e)[0] == 1u8);
                    assert(Self::spec_encode(w, e)[0] == 0u8);
                },
                ChatMessageView::Leave => {
                },
            },
        }
    }
}

} // verus!
