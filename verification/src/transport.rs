//! The decision logic of the duplex transport.
//!
//! A live connection runs two loops — one reading the stream, one writing it —
//! that cooperate only through channels. Everything those loops decide is
//! here, as plain functions over bytes and messages:
//!
//! - [`FrameScanner`] delimits candidate frames in the incoming byte stream:
//!   bytes are discarded until a start marker is seen, then buffered up to and
//!   including the first end-marker byte;
//! - [`handle_frame`] decodes one candidate frame and, for a successfully
//!   decoded command frame, synthesizes the acknowledgment that must be
//!   transmitted before the decoded message is handed to the caller;
//! - [`FrameScanner::feed`] runs both over a chunk of input and yields the
//!   ordered list of actions the receive loop must take, acknowledgment
//!   transmissions standing before the deliveries they precede.
//!
//! The loops themselves — stream reads and writes, channel sends, completion
//! signals — are I/O plumbing around these functions and hold no protocol
//! logic of their own.

use vstd::prelude::*;
use vstd::slice::slice_index_get;

use crate::message::ack::Ack;
use crate::message::{
    spec_decode, spec_encode, Data, DataView, Message, MessageView, MESSAGE_END, MESSAGE_START,
};
use crate::serializable::DeserializeError;

verus! {

/// The sequence number carried by every synthesized acknowledgment.
pub const ACK_SEQUENCE_NUMBER: u8 = 1;

/// The acknowledgment message the receive side synthesizes in reply to a
/// decoded command frame.
pub open spec fn spec_ack_reply() -> MessageView {
    MessageView { sequence_number: ACK_SEQUENCE_NUMBER, data: DataView::Ack }
}

/// One step the receive loop must take, in order: transmit bytes on the
/// single outbound path, or deliver a decode result to the caller.
#[derive(Debug)]
pub enum Action {
    Transmit(Vec<u8>),
    Deliver(Result<Message, DeserializeError>),
}

/// The mathematical image of an [`Action`].
#[verifier::ext_equal]
pub enum ActionView {
    Transmit(Seq<u8>),
    Deliver(Result<MessageView, DeserializeError>),
}

impl View for Action {
    type V = ActionView;

    open spec fn view(&self) -> ActionView {
        match self {
            Action::Transmit(bytes) => ActionView::Transmit(bytes@),
            Action::Deliver(Ok(m)) => ActionView::Deliver(Ok(m@)),
            Action::Deliver(Err(e)) => ActionView::Deliver(Err(*e)),
        }
    }
}

/// The actions one candidate frame gives rise to: a successfully decoded
/// command frame is acknowledged on the wire before its message is delivered;
/// every other frame — acknowledgments, unknown payloads, decode failures —
/// is delivered alone.
pub open spec fn spec_handle_frame(frame: Seq<u8>) -> Seq<ActionView> {
    match spec_decode(frame) {
        Ok(m) => if m.data is DataMdr {
            seq![
                ActionView::Transmit(spec_encode(spec_ack_reply())),
                ActionView::Deliver(Ok(m)),
            ]
        } else {
            seq![ActionView::Deliver(Ok(m))]
        },
        Err(e) => seq![ActionView::Deliver(Err(e))],
    }
}

/// Decode one candidate frame and emit its actions.
pub fn handle_frame(frame: &[u8]) -> (actions: Vec<Action>)
    ensures
        actions@.map_values(|a: Action| a@) == spec_handle_frame(frame@),
{
    let mut actions: Vec<Action> = Vec::new();
    match Message::deserialize(frame) {
        Ok(m) => {
            if m.requires_ack() {
                let reply = Message {
                    sequence_number: ACK_SEQUENCE_NUMBER,
                    data: Data::Ack(Ack {  }),
                };
                proof {
                    assert(reply@ =~= spec_ack_reply());
                }
                let bytes = reply.serialize();
                actions.push(Action::Transmit(bytes));
            }
            actions.push(Action::Deliver(Ok(m)));
        },
        Err(e) => {
            actions.push(Action::Deliver(Err(e)));
        },
    }
    proof {
        assert(actions@.map_values(|a: Action| a@) =~= spec_handle_frame(frame@));
    }
    actions
}

/// Delimits candidate frames in the incoming byte stream.
///
/// Until a start marker arrives every byte is discarded; this resynchronizes
/// after garbage or a corrupt frame. From the start marker on, bytes are
/// buffered up to and including the first end-marker byte, and the buffered
/// candidate — start marker through end marker — is handed out for decoding.
pub struct FrameScanner {
    in_frame: bool,
    buf: Vec<u8>,
}

impl FrameScanner {
    /// Whether the scanner is inside a frame, between a start marker and the
    /// next end-marker byte.
    pub closed spec fn in_frame(self) -> bool {
        self.in_frame
    }

    /// The bytes buffered for the current candidate frame.
    pub closed spec fn buffered(self) -> Seq<u8> {
        self.buf@
    }

    pub fn new() -> (s: Self)
        ensures
            !s.in_frame(),
            s.buffered() == Seq::<u8>::empty(),
    {
        FrameScanner { in_frame: false, buf: Vec::new() }
    }

    /// Feed one byte; a completed candidate frame, start marker through end
    /// marker inclusive, is returned as soon as its end-marker byte arrives.
    pub fn push_byte(&mut self, b: u8) -> (r: Option<Vec<u8>>)
        ensures
            spec_scan_step(old(self).in_frame(), old(self).buffered(), b) == (
                final (self).in_frame(),
                final (self).buffered(),
                match r {
                    Some(frame) => Some(frame@),
                    None => None::<Seq<u8>>,
                },
            ),
    {
        if !self.in_frame {
            if b == MESSAGE_START {
                self.buf.clear();
                self.buf.push(b);
                self.in_frame = true;
                proof {
                    assert(self.buf@ =~= seq![b]);
                }
            }
            None
        } else {
            self.buf.push(b);
            if b == MESSAGE_END {
                self.in_frame = false;
                let mut frame: Vec<u8> = Vec::new();
                core::mem::swap(&mut frame, &mut self.buf);
                proof {
                    assert(self.buf@ =~= Seq::<u8>::empty());
                }
                Some(frame)
            } else {
                None
            }
        }
    }

    /// Feed a chunk of input and collect the actions it gives rise to, in
    /// order: for each candidate frame completed within `input`, its
    /// acknowledgment transmission (where one is owed) immediately followed
    /// by its delivery.
    pub fn feed(&mut self, input: &[u8]) -> (actions: Vec<Action>)
        ensures
            spec_feed(old(self).in_frame(), old(self).buffered(), input@) == (
                final (self).in_frame(),
                final (self).buffered(),
                actions@.map_values(|a: Action| a@),
            ),
    {
        let mut actions: Vec<Action> = Vec::new();
        let mut i: usize = 0;
        proof {
            assert(input@.skip(0) =~= input@);
            assert(actions@.map_values(|a: Action| a@) =~= Seq::<ActionView>::empty());
        }
        while i < input.len()
            invariant
                i <= input@.len(),
                spec_feed(old(self).in_frame(), old(self).buffered(), input@) == spec_feed_acc(
                    self.in_frame(),
                    self.buffered(),
                    input@.skip(i as int),
                    actions@.map_values(|a: Action| a@),
                ),
            decreases input@.len() - i,
        {
            let ghost pre_actions = actions@.map_values(|a: Action| a@);
            let ghost pre_in_frame = self.in_frame();
            let ghost pre_buf = self.buffered();
            let b = *slice_index_get(input, i);
            let completed = self.push_byte(b);
            match completed {
                Some(frame) => {
                    let mut frame_actions = handle_frame(frame.as_slice());
                    actions.append(&mut frame_actions);
                },
                None => {},
            }
            i = i + 1;
            proof {
                lemma_feed_step(pre_in_frame, pre_buf, input@.skip(i - 1), pre_actions);
                assert(input@.skip(i - 1).drop_first() =~= input@.skip(i as int));
                assert(input@.skip(i - 1)[0] == b);
                assert(actions@.map_values(|a: Action| a@) =~= pre_actions + spec_scan_actions(
                    pre_in_frame,
                    pre_buf,
                    b,
                ));
            }
        }
        proof {
            assert(input@.skip(input@.len() as int) =~= Seq::<u8>::empty());
        }
        actions
    }
}

/// One scanner transition: the state after one byte, and the candidate frame
/// that byte completes, if any.
pub open spec fn spec_scan_step(in_frame: bool, buf: Seq<u8>, b: u8) -> (
    bool,
    Seq<u8>,
    Option<Seq<u8>>,
) {
    if !in_frame {
        if b == MESSAGE_START {
            (true, seq![b], None)
        } else {
            (false, buf, None)
        }
    } else {
        if b == MESSAGE_END {
            (false, Seq::empty(), Some(buf.push(b)))
        } else {
            (true, buf.push(b), None)
        }
    }
}

/// The actions one byte gives rise to: those of the candidate frame it
/// completes, if it completes one.
pub open spec fn spec_scan_actions(in_frame: bool, buf: Seq<u8>, b: u8) -> Seq<ActionView> {
    match spec_scan_step(in_frame, buf, b).2 {
        Some(frame) => spec_handle_frame(frame),
        None => Seq::empty(),
    }
}

/// Scanner state and accumulated actions after a whole chunk of input.
pub open spec fn spec_feed_acc(
    in_frame: bool,
    buf: Seq<u8>,
    input: Seq<u8>,
    acc: Seq<ActionView>,
) -> (bool, Seq<u8>, Seq<ActionView>)
    decreases input.len(),
{
    if input.len() == 0 {
        (in_frame, buf, acc)
    } else {
        let (in_frame2, buf2, _) = spec_scan_step(in_frame, buf, input[0]);
        spec_feed_acc(
            in_frame2,
            buf2,
            input.drop_first(),
            acc + spec_scan_actions(in_frame, buf, input[0]),
        )
    }
}

/// Scanner state and actions after a whole chunk of input.
pub open spec fn spec_feed(in_frame: bool, buf: Seq<u8>, input: Seq<u8>) -> (
    bool,
    Seq<u8>,
    Seq<ActionView>,
) {
    spec_feed_acc(in_frame, buf, input, Seq::empty())
}

/// Unfolding one step of the accumulated feed.
proof fn lemma_feed_step(in_frame: bool, buf: Seq<u8>, input: Seq<u8>, acc: Seq<ActionView>)
    requires
        input.len() > 0,
    ensures
        spec_feed_acc(in_frame, buf, input, acc) == ({
            let (in_frame2, buf2, _) = spec_scan_step(in_frame, buf, input[0]);
            spec_feed_acc(
                in_frame2,
                buf2,
                input.drop_first(),
                acc + spec_scan_actions(in_frame, buf, input[0]),
            )
        }),
{
}

} // verus!
