//! Messages of the audio/video channels: stream setup, focus, start and
//! stop indications, media payloads and their acknowledgements, and the
//! shared handling of them that the audio output channels use.

use vstd::prelude::*;

use crate::bytes::{be16_value, be64_value, read_be64};
use crate::frame::{copy_range, AndroidAutoFrame};
use crate::ids::{MSG_AV_INPUT_OPEN_REQUEST, MSG_AV_MEDIA_ACK_INDICATION, MSG_AV_MEDIA_INDICATION,
    MSG_AV_MEDIA_WITH_TIMESTAMP_INDICATION, MSG_AV_SETUP_REQUEST, MSG_AV_SETUP_RESPONSE,
    MSG_AV_START_INDICATION, MSG_AV_STOP_INDICATION, MSG_VIDEO_FOCUS_INDICATION,
    MSG_VIDEO_FOCUS_REQUEST, SETUP_STATUS_OK};
use crate::message::{build_message_frame, message_body, message_header, message_payload, read_tag};
use crate::proto::{collect_varints, fields_bytes, fields_view, lemma_field_bytes_len,
    lemma_fields_bytes_three, lemma_fields_bytes_two, only_varint_fields_upto, parse_fields,
    push_varint_field, spec_parse_fields, varints_of, FieldV};
use crate::ChannelId;

verus! {

/// The start of a stream: the session the device chose, and which of the
/// offered configurations it uses.
#[derive(Clone, Copy, Debug, PartialEq, Eq, Structural)]
pub struct AvStartIndication {
    /// The session identifier later echoed in media acknowledgements.
    pub session: u32,
    /// The index of the configuration in use.
    pub config: u32,
}

/// A request to open or close the audio input device.
#[derive(Clone, Copy, Debug, PartialEq, Eq, Structural)]
pub struct AvInputOpenRequest {
    /// True to open the device, false to close it.
    pub open: bool,
}

/// A request to change the video focus.
#[derive(Clone, Copy, Debug, PartialEq, Eq, Structural)]
pub struct VideoFocusRequest {
    /// The requested focus mode.
    pub mode: u32,
}

/// A message on an audio/video channel.
#[derive(Debug)]
pub enum AvChannelMessage {
    /// A request to set up the stream; its body does not decide the answer.
    SetupRequest(ChannelId, Vec<u8>),
    /// The start of a stream.
    StartIndication(ChannelId, AvStartIndication),
    /// The end of a stream; its body is carried along.
    StopIndication(ChannelId, Vec<u8>),
    /// A media payload, with its timestamp when the device sent one.
    MediaIndication(ChannelId, Option<u64>, Vec<u8>),
    /// A request to open or close the audio input device.
    AvChannelOpen(ChannelId, AvInputOpenRequest),
    /// A request to change the video focus.
    VideoFocusRequest(ChannelId, VideoFocusRequest),
    /// The device's acknowledgement of a media payload, with its session.
    MediaIndicationAck(ChannelId, u32),
}

/// The parse of a start indication body: field 1 is the session, which must
/// be present, and field 2 the configuration index, 0 when absent.
pub open spec fn spec_parse_start_indication(b: Seq<u8>) -> Option<AvStartIndication> {
    match spec_parse_fields(b, 0) {
        Option::None => Option::None,
        Option::Some(fs) => {
            if only_varint_fields_upto(fs, 2) && varints_of(fs, 1).len() >= 1 {
                Option::Some(
                    AvStartIndication {
                        session: varints_of(fs, 1).last() as u32,
                        config: if varints_of(fs, 2).len() >= 1 {
                            varints_of(fs, 2).last() as u32
                        } else {
                            0
                        },
                    },
                )
            } else {
                Option::None
            }
        },
    }
}

/// The parse of an input-open request body: field 1 decides opening or
/// closing; the other fields do not matter here.
pub open spec fn spec_parse_input_open(b: Seq<u8>) -> Option<AvInputOpenRequest> {
    match spec_parse_fields(b, 0) {
        Option::None => Option::None,
        Option::Some(fs) => {
            if only_varint_fields_upto(fs, 4) {
                Option::Some(
                    AvInputOpenRequest {
                        open: varints_of(fs, 1).len() >= 1 && varints_of(fs, 1).last() != 0,
                    },
                )
            } else {
                Option::None
            }
        },
    }
}

/// The parse of a media acknowledgement body: field 1 is the session, 0
/// when absent; field 2 counts the frames acknowledged.
pub open spec fn spec_parse_media_ack(b: Seq<u8>) -> Option<u32> {
    match spec_parse_fields(b, 0) {
        Option::None => Option::None,
        Option::Some(fs) => {
            if only_varint_fields_upto(fs, 2) {
                Option::Some(
                    if varints_of(fs, 1).len() >= 1 {
                        varints_of(fs, 1).last() as u32
                    } else {
                        0
                    },
                )
            } else {
                Option::None
            }
        },
    }
}

/// Parse a media acknowledgement body, as the specification parse does.
fn parse_media_ack(body: &Vec<u8>) -> (r: Option<u32>)
    ensures
        r == spec_parse_media_ack(body@),
{
    let fields = match parse_fields(body) {
        Option::None => {
            return Option::None;
        },
        Option::Some(fs) => fs,
    };
    let cols = match collect_varints(&fields, 2) {
        Option::None => {
            return Option::None;
        },
        Option::Some(c) => c,
    };
    proof {
        assert(varints_of(fields_view(fields@), 1) == cols@[0int]@);
    }
    let sessions = &cols[0];
    let session = if sessions.len() >= 1 {
        sessions[sessions.len() - 1] as u32
    } else {
        0
    };
    Option::Some(session)
}

/// The parse of a video-focus request body: field 2 is the requested mode,
/// 0 when absent; the display index and reason do not matter here.
pub open spec fn spec_parse_video_focus_request(b: Seq<u8>) -> Option<VideoFocusRequest> {
    match spec_parse_fields(b, 0) {
        Option::None => Option::None,
        Option::Some(fs) => {
            if only_varint_fields_upto(fs, 3) {
                Option::Some(
                    VideoFocusRequest {
                        mode: if varints_of(fs, 2).len() >= 1 {
                            varints_of(fs, 2).last() as u32
                        } else {
                            0
                        },
                    },
                )
            } else {
                Option::None
            }
        },
    }
}

/// Parse a start indication body, as the specification parse does.
fn parse_start_indication(body: &Vec<u8>) -> (r: Option<AvStartIndication>)
    ensures
        r == spec_parse_start_indication(body@),
{
    let fields = match parse_fields(body) {
        Option::None => {
            return Option::None;
        },
        Option::Some(fs) => fs,
    };
    let cols = match collect_varints(&fields, 2) {
        Option::None => {
            return Option::None;
        },
        Option::Some(c) => c,
    };
    proof {
        let fsv = fields_view(fields@);
        assert(varints_of(fsv, 1) == cols@[0int]@);
        assert(varints_of(fsv, 2) == cols@[1int]@);
    }
    let sessions = &cols[0];
    let configs = &cols[1];
    if sessions.len() == 0 {
        return Option::None;
    }
    let session = sessions[sessions.len() - 1] as u32;
    let config = if configs.len() >= 1 {
        configs[configs.len() - 1] as u32
    } else {
        0
    };
    Option::Some(AvStartIndication { session, config })
}

/// Parse an input-open request body, as the specification parse does.
fn parse_input_open(body: &Vec<u8>) -> (r: Option<AvInputOpenRequest>)
    ensures
        r == spec_parse_input_open(body@),
{
    let fields = match parse_fields(body) {
        Option::None => {
            return Option::None;
        },
        Option::Some(fs) => fs,
    };
    let cols = match collect_varints(&fields, 4) {
        Option::None => {
            return Option::None;
        },
        Option::Some(c) => c,
    };
    proof {
        assert(varints_of(fields_view(fields@), 1) == cols@[0int]@);
    }
    let opens = &cols[0];
    let open = opens.len() >= 1 && opens[opens.len() - 1] != 0;
    Option::Some(AvInputOpenRequest { open })
}

/// Parse a video-focus request body, as the specification parse does.
fn parse_video_focus_request(body: &Vec<u8>) -> (r: Option<VideoFocusRequest>)
    ensures
        r == spec_parse_video_focus_request(body@),
{
    let fields = match parse_fields(body) {
        Option::None => {
            return Option::None;
        },
        Option::Some(fs) => fs,
    };
    let cols = match collect_varints(&fields, 3) {
        Option::None => {
            return Option::None;
        },
        Option::Some(c) => c,
    };
    proof {
        assert(varints_of(fields_view(fields@), 2) == cols@[1int]@);
    }
    let modes = &cols[1];
    let mode = if modes.len() >= 1 {
        modes[modes.len() - 1] as u32
    } else {
        0
    };
    Option::Some(VideoFocusRequest { mode })
}

impl AvChannelMessage {
    /// What a payload of the audio/video namespace decodes to, when it does.
    pub open spec fn spec_decode(channel: ChannelId, data: Seq<u8>) -> Option<AvChannelMessage> {
        if data.len() < 2 {
            Option::None
        } else {
            let tag = be16_value(data[0], data[1]);
            let body = data.skip(2);
            if tag == MSG_AV_SETUP_REQUEST {
                Option::Some(AvChannelMessage::SetupRequest(channel, arbitrary()))
            } else if tag == MSG_AV_STOP_INDICATION {
                Option::Some(AvChannelMessage::StopIndication(channel, arbitrary()))
            } else if tag == MSG_AV_MEDIA_INDICATION {
                Option::Some(AvChannelMessage::MediaIndication(channel, Option::None, arbitrary()))
            } else if tag == MSG_AV_MEDIA_WITH_TIMESTAMP_INDICATION {
                if data.len() >= 10 {
                    Option::Some(
                        AvChannelMessage::MediaIndication(
                            channel,
                            Option::Some(be64_value(data.subrange(2, 10))),
                            arbitrary(),
                        ),
                    )
                } else {
                    Option::None
                }
            } else if tag == MSG_AV_START_INDICATION {
                match spec_parse_start_indication(body) {
                    Option::None => Option::None,
                    Option::Some(m) => Option::Some(AvChannelMessage::StartIndication(channel, m)),
                }
            } else if tag == MSG_AV_INPUT_OPEN_REQUEST {
                match spec_parse_input_open(body) {
                    Option::None => Option::None,
                    Option::Some(m) => Option::Some(AvChannelMessage::AvChannelOpen(channel, m)),
                }
            } else if tag == MSG_VIDEO_FOCUS_REQUEST {
                match spec_parse_video_focus_request(body) {
                    Option::None => Option::None,
                    Option::Some(m) => Option::Some(
                        AvChannelMessage::VideoFocusRequest(channel, m),
                    ),
                }
            } else if tag == MSG_AV_MEDIA_ACK_INDICATION {
                match spec_parse_media_ack(body) {
                    Option::None => Option::None,
                    Option::Some(session) => Option::Some(
                        AvChannelMessage::MediaIndicationAck(channel, session),
                    ),
                }
            } else {
                Option::None
            }
        }
    }

    /// Decode a reassembled payload of an audio/video channel. The decoded
    /// variants match the specification decode; the byte payloads they
    /// carry are pinned here.
    pub fn try_from_payload(channel: ChannelId, data: &Vec<u8>) -> (r: Option<AvChannelMessage>)
        ensures
            r is Some <==> Self::spec_decode(channel, data@) is Some,
            r matches Some(m) ==> {
                let sm = Self::spec_decode(channel, data@)->Some_0;
                match m {
                    AvChannelMessage::SetupRequest(c, b) => sm is SetupRequest && c == channel && b@
                        == data@.skip(2),
                    AvChannelMessage::StopIndication(c, b) => sm is StopIndication && c == channel
                        && b@ == data@.skip(2),
                    AvChannelMessage::MediaIndication(c, ts, b) => sm is MediaIndication && c
                        == channel && ts == sm->MediaIndication_1 && b@ == (if ts is Some {
                        data@.skip(10)
                    } else {
                        data@.skip(2)
                    }),
                    AvChannelMessage::StartIndication(c, m2) => c == channel && sm
                        == AvChannelMessage::StartIndication(channel, m2),
                    AvChannelMessage::AvChannelOpen(c, m2) => c == channel && sm
                        == AvChannelMessage::AvChannelOpen(channel, m2),
                    AvChannelMessage::VideoFocusRequest(c, m2) => c == channel && sm
                        == AvChannelMessage::VideoFocusRequest(channel, m2),
                    AvChannelMessage::MediaIndicationAck(c, s) => c == channel && sm
                        == AvChannelMessage::MediaIndicationAck(channel, s),
                }
            },
    {
        let n = data.len();
        let tag = match read_tag(data) {
            Option::None => {
                return Option::None;
            },
            Option::Some(t) => t,
        };
        if tag == MSG_AV_SETUP_REQUEST {
            Option::Some(AvChannelMessage::SetupRequest(channel, message_body(data)))
        } else if tag == MSG_AV_STOP_INDICATION {
            Option::Some(AvChannelMessage::StopIndication(channel, message_body(data)))
        } else if tag == MSG_AV_MEDIA_INDICATION {
            Option::Some(AvChannelMessage::MediaIndication(channel, Option::None, message_body(data)))
        } else if tag == MSG_AV_MEDIA_WITH_TIMESTAMP_INDICATION {
            if n < 10 {
                return Option::None;
            }
            let ts = read_be64(data, 2);
            let rest = copy_range(data, 10, n - 10);
            proof {
                assert(data@.subrange(10, n as int) =~= data@.skip(10));
            }
            Option::Some(AvChannelMessage::MediaIndication(channel, Option::Some(ts), rest))
        } else if tag == MSG_AV_START_INDICATION {
            let body = message_body(data);
            match parse_start_indication(&body) {
                Option::None => Option::None,
                Option::Some(m) => Option::Some(AvChannelMessage::StartIndication(channel, m)),
            }
        } else if tag == MSG_AV_INPUT_OPEN_REQUEST {
            let body = message_body(data);
            match parse_input_open(&body) {
                Option::None => Option::None,
                Option::Some(m) => Option::Some(AvChannelMessage::AvChannelOpen(channel, m)),
            }
        } else if tag == MSG_VIDEO_FOCUS_REQUEST {
            let body = message_body(data);
            match parse_video_focus_request(&body) {
                Option::None => Option::None,
                Option::Some(m) => Option::Some(AvChannelMessage::VideoFocusRequest(channel, m)),
            }
        } else if tag == MSG_AV_MEDIA_ACK_INDICATION {
            let body = message_body(data);
            match parse_media_ack(&body) {
                Option::None => Option::None,
                Option::Some(session) => Option::Some(
                    AvChannelMessage::MediaIndicationAck(channel, session),
                ),
            }
        } else {
            Option::None
        }
    }
}

/// The body of a setup response: a successful status, the given number of
/// unacknowledged media frames allowed, and the first offered
/// configuration chosen.
pub open spec fn setup_response_body(max_unacked: u32) -> Seq<u8> {
    fields_bytes(
        seq![
            (1u32, FieldV::VInt(SETUP_STATUS_OK)),
            (2u32, FieldV::VInt(max_unacked as u64)),
            (3u32, FieldV::VInt(0)),
        ],
    )
}

/// Build the frame of a setup response.
pub fn setup_response_frame(channel: ChannelId, max_unacked: u32) -> (r: AndroidAutoFrame)
    ensures
        r.header == message_header(channel, true),
        r.data@ == message_payload(MSG_AV_SETUP_RESPONSE, setup_response_body(max_unacked)),
        r.wf(),
{
    let mut body: Vec<u8> = Vec::new();
    push_varint_field(&mut body, 1, SETUP_STATUS_OK);
    push_varint_field(&mut body, 2, max_unacked as u64);
    push_varint_field(&mut body, 3, 0);
    proof {
        lemma_fields_bytes_three(
            1,
            FieldV::VInt(SETUP_STATUS_OK),
            2,
            FieldV::VInt(max_unacked as u64),
            3,
            FieldV::VInt(0),
        );
        lemma_field_bytes_len(1, FieldV::VInt(SETUP_STATUS_OK));
        lemma_field_bytes_len(2, FieldV::VInt(max_unacked as u64));
        lemma_field_bytes_len(3, FieldV::VInt(0));
        assert(body@ =~= setup_response_body(max_unacked));
    }
    build_message_frame(channel, true, MSG_AV_SETUP_RESPONSE, body)
}

/// The body of a video-focus indication: the mode held, not unrequested.
pub open spec fn video_focus_indication_body(mode: u32) -> Seq<u8> {
    fields_bytes(seq![(1u32, FieldV::VInt(mode as u64)), (2u32, FieldV::VInt(0))])
}

/// Build the frame of a video-focus indication.
pub fn video_focus_indication_frame(channel: ChannelId, mode: u32) -> (r: AndroidAutoFrame)
    ensures
        r.header == message_header(channel, true),
        r.data@ == message_payload(MSG_VIDEO_FOCUS_INDICATION, video_focus_indication_body(mode)),
        r.wf(),
{
    let mut body: Vec<u8> = Vec::new();
    push_varint_field(&mut body, 1, mode as u64);
    push_varint_field(&mut body, 2, 0);
    proof {
        lemma_fields_bytes_two(1, FieldV::VInt(mode as u64), 2, FieldV::VInt(0));
        lemma_field_bytes_len(1, FieldV::VInt(mode as u64));
        lemma_field_bytes_len(2, FieldV::VInt(0));
        assert(body@ =~= video_focus_indication_body(mode));
    }
    build_message_frame(channel, true, MSG_VIDEO_FOCUS_INDICATION, body)
}

/// The body of a media acknowledgement: the session it belongs to and one
/// frame acknowledged.
pub open spec fn media_ack_body(session: u32) -> Seq<u8> {
    fields_bytes(seq![(1u32, FieldV::VInt(session as u64)), (2u32, FieldV::VInt(1))])
}

/// Build the frame of a media acknowledgement.
pub fn media_ack_frame(channel: ChannelId, session: u32) -> (r: AndroidAutoFrame)
    ensures
        r.header == message_header(channel, true),
        r.data@ == message_payload(MSG_AV_MEDIA_ACK_INDICATION, media_ack_body(session)),
        r.wf(),
{
    let mut body: Vec<u8> = Vec::new();
    push_varint_field(&mut body, 1, session as u64);
    push_varint_field(&mut body, 2, 1);
    proof {
        lemma_fields_bytes_two(1, FieldV::VInt(session as u64), 2, FieldV::VInt(1));
        lemma_field_bytes_len(1, FieldV::VInt(session as u64));
        lemma_field_bytes_len(2, FieldV::VInt(1));
        assert(body@ =~= media_ack_body(session));
    }
    build_message_frame(channel, true, MSG_AV_MEDIA_ACK_INDICATION, body)
}

} // verus!
