//! Messages common to all sub-channels: a device asks a channel to open,
//! and the head unit answers with a status.

use vstd::prelude::*;

use crate::bytes::be16_value;
use crate::frame::AndroidAutoFrame;
use crate::ids::{MSG_CHANNEL_OPEN_REQUEST, MSG_CHANNEL_OPEN_RESPONSE, STATUS_FAIL, STATUS_OK};
use crate::message::{build_message_frame, message_body, message_header, message_payload, read_tag};
use crate::proto::{fields_bytes, lemma_field_bytes_len, lemma_fields_bytes_push,
    push_varint_field, FieldV};
use crate::session::HandlerResponse;
use crate::ChannelId;

verus! {

/// Messages common to all sub-channels.
#[derive(Debug)]
pub enum AndroidAutoCommonMessage {
    /// A request from the device to open the channel. Its body is carried
    /// along but nothing in it decides the answer.
    ChannelOpenRequest(Vec<u8>),
    /// The head unit's answer: the channel it opens on, and a status.
    ChannelOpenResponse(ChannelId, u32),
}

/// The body of a channel-open response: its status as field 1.
pub open spec fn open_response_body(status: u32) -> Seq<u8> {
    fields_bytes(seq![(1u32, FieldV::VInt(status as u64))])
}

impl AndroidAutoCommonMessage {
    /// Whether a payload carries a message of the common namespace.
    pub open spec fn payload_is_common(data: Seq<u8>) -> bool {
        data.len() >= 2 && be16_value(data[0], data[1]) == MSG_CHANNEL_OPEN_REQUEST
    }

    /// Decode a reassembled payload into a common message; payloads whose
    /// tag belongs to another namespace are left for that namespace's
    /// decoder.
    pub fn try_from_payload(data: &Vec<u8>) -> (r: Option<AndroidAutoCommonMessage>)
        ensures
            r is Some <==> Self::payload_is_common(data@),
            r matches Some(m) ==> m matches AndroidAutoCommonMessage::ChannelOpenRequest(b) && b@
                == data@.skip(2),
    {
        match read_tag(data) {
            Option::None => Option::None,
            Option::Some(tag) => {
                if tag == MSG_CHANNEL_OPEN_REQUEST {
                    Option::Some(AndroidAutoCommonMessage::ChannelOpenRequest(message_body(data)))
                } else {
                    Option::None
                }
            },
        }
    }

    /// Build the frame of a channel-open response, encrypted as every
    /// steady-state frame is.
    pub fn open_response_frame(channel: ChannelId, ok: bool) -> (r: AndroidAutoFrame)
        ensures
            r.header == message_header(channel, true),
            r.data@ == message_payload(
                MSG_CHANNEL_OPEN_RESPONSE,
                open_response_body(
                    if ok {
                        STATUS_OK as u32
                    } else {
                        STATUS_FAIL as u32
                    },
                ),
            ),
            r.wf(),
    {
        let status: u32 = if ok {
            STATUS_OK as u32
        } else {
            STATUS_FAIL as u32
        };
        let mut body: Vec<u8> = Vec::new();
        push_varint_field(&mut body, 1, status as u64);
        proof {
            lemma_fields_bytes_push(Seq::empty(), (1u32, FieldV::VInt(status as u64)));
            assert(Seq::<(u32, FieldV)>::empty().push((1u32, FieldV::VInt(status as u64))) =~= seq![
                (1u32, FieldV::VInt(status as u64)),
            ]);
            assert(fields_bytes(Seq::<(u32, FieldV)>::empty()) == Seq::<u8>::empty());
            assert(body@ =~= open_response_body(status));
            lemma_field_bytes_len(1, FieldV::VInt(status as u64));
        }
        build_message_frame(channel, true, MSG_CHANNEL_OPEN_RESPONSE, body)
    }
}


/// The channel-open answer as a handler step: one response frame carrying
/// the outcome, and nothing else.
pub fn channel_open_response(channel: ChannelId, ok: bool) -> (r: HandlerResponse)
    ensures
        r.frames@.len() == 1,
        r.frames@[0].header == message_header(channel, true),
        r.frames@[0].data@ == message_payload(
            MSG_CHANNEL_OPEN_RESPONSE,
            open_response_body(
                if ok {
                    STATUS_OK as u32
                } else {
                    STATUS_FAIL as u32
                },
            ),
        ),
        crate::control::auth_frame_count(r.frames@) == 0,
        r.requests@.len() == 0,
        !r.shutdown,
{
    let f = AndroidAutoCommonMessage::open_response_frame(channel, ok);
    let resp = HandlerResponse::with_frame(f);
    proof {
        crate::control::lemma_tag_of_message_payload(
            MSG_CHANNEL_OPEN_RESPONSE,
            open_response_body(
                if ok {
                    STATUS_OK as u32
                } else {
                    STATUS_FAIL as u32
                },
            ),
        );
        crate::control::lemma_auth_count_singleton(resp.frames@);
    }
    resp
}

} // verus!
