//! Building and opening the payloads of logical messages: the two-byte
//! message-type tag followed by the body, and the frame that carries them.

use vstd::prelude::*;

use crate::bytes::{be16_value, be16_bytes, push_be16};
use crate::frame::{concat_frame_payloads, copy_range, AndroidAutoFrame, FrameHeader,
    FrameHeaderType, MAX_FRAME_DATA_SIZE};

verus! {

/// The header under which the message encoders send a single-fragment
/// message: the control flag rides exactly on the control channel.
pub open spec fn message_header(channel: u8, encryption: bool) -> FrameHeader {
    FrameHeader {
        channel_id: channel,
        frame_type: FrameHeaderType::Single,
        control: channel == 0,
        encryption,
    }
}

/// The payload of a logical message: the big-endian message-type tag, then
/// the body.
pub open spec fn message_payload(tag: u16, body: Seq<u8>) -> Seq<u8> {
    be16_bytes(tag) + body
}

/// No frame the message encoders produce carries the control flag on a
/// channel other than the control channel.
pub proof fn lemma_control_flag_only_on_channel_zero(channel: u8, encryption: bool)
    ensures
        message_header(channel, encryption).control ==> channel == 0,
{
}

/// Build the single frame that carries a message.
pub fn build_message_frame(channel: u8, encryption: bool, tag: u16, body: Vec<u8>) -> (r:
    AndroidAutoFrame)
    requires
        body@.len() <= 0xFFFD,
    ensures
        r.header == message_header(channel, encryption),
        r.data@ == message_payload(tag, body@),
        r.first_total is None,
        r.wf(),
{
    let mut data: Vec<u8> = Vec::new();
    push_be16(&mut data, tag);
    let mut b = body;
    data.append(&mut b);
    AndroidAutoFrame {
        header: FrameHeader {
            channel_id: channel,
            frame_type: FrameHeaderType::Single,
            control: channel == 0,
            encryption,
        },
        data,
        first_total: Option::None,
    }
}

/// Read the message-type tag leading a payload, if the payload is long
/// enough to carry one.
pub fn read_tag(data: &Vec<u8>) -> (r: Option<u16>)
    ensures
        data@.len() >= 2 ==> r == Some(be16_value(data@[0], data@[1])),
        data@.len() < 2 ==> r is None,
{
    if data.len() < 2 {
        Option::None
    } else {
        let b0 = data[0];
        let b1 = data[1];
        Option::Some((b0 as u16) * 0x100 + (b1 as u16))
    }
}

/// Copy the body of a payload: everything after the two tag bytes.
pub fn message_body(data: &Vec<u8>) -> (r: Vec<u8>)
    requires
        data@.len() >= 2,
    ensures
        r@ == data@.skip(2),
{
    let n = data.len();
    let r = copy_range(data, 2, n - 2);
    proof {
        assert(data@.subrange(2, n as int) =~= data@.skip(2));
    }
    r
}


/// Build the frames that carry a message, splitting it into fragments when
/// it exceeds the largest frame payload.
pub fn build_message_frames(channel: u8, encryption: bool, tag: u16, body: Vec<u8>) -> (r: Vec<
    AndroidAutoFrame,
>)
    requires
        body@.len() <= 0xFFFFFF,
    ensures
        r@.len() >= 1,
        concat_frame_payloads(r@) == message_payload(tag, body@),
        forall|i: int|
            0 <= i < r@.len() ==> (#[trigger] r@[i]).wf() && r@[i].header.channel_id == channel
                && r@[i].header.control == (channel == 0) && r@[i].header.encryption == encryption,
        message_payload(tag, body@).len() <= MAX_FRAME_DATA_SIZE ==> r@.len() == 1 && r@[0].header
            == message_header(channel, encryption) && r@[0].data@ == message_payload(tag, body@),
        message_payload(tag, body@).len() > MAX_FRAME_DATA_SIZE ==> forall|i: int|
            0 <= i < r@.len() ==> (#[trigger] r@[i]).header.frame_type != FrameHeaderType::Single,
{
    let mut payload: Vec<u8> = Vec::new();
    push_be16(&mut payload, tag);
    let mut b = body;
    payload.append(&mut b);
    let header = FrameHeader {
        channel_id: channel,
        frame_type: FrameHeaderType::Single,
        control: channel == 0,
        encryption,
    };
    let r = AndroidAutoFrame::build_multi_frame(header, payload);
    proof {
        if message_payload(tag, body@).len() <= MAX_FRAME_DATA_SIZE {
            assert(concat_frame_payloads(r@.drop_last()) == Seq::<u8>::empty());
            assert(r@[0].data@ =~= message_payload(tag, body@));
        }
        if message_payload(tag, body@).len() > MAX_FRAME_DATA_SIZE {
            assert forall|i: int| 0 <= i < r@.len() implies (#[trigger] r@[i]).header.frame_type
                != FrameHeaderType::Single by {
                if i == 0 {
                } else if i == r@.len() - 1 {
                } else {
                }
            }
        }
    }
    r
}

} // verus!
