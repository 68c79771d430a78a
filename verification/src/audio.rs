//! The behavior shared by the three audio output channels: opening goes to
//! the integration, setup allows ten unacknowledged frames, media and
//! start/stop indications are forwarded, and focus requests are granted.

use vstd::prelude::*;

use crate::av::{setup_response_body, setup_response_frame, video_focus_indication_body,
    video_focus_indication_frame, AvChannelMessage};
use crate::common::{channel_open_response, AndroidAutoCommonMessage};
use crate::control::{auth_frame_count, lemma_auth_count_singleton, lemma_tag_of_message_payload};
use crate::ids::{MSG_AV_SETUP_RESPONSE, MSG_VIDEO_FOCUS_INDICATION, VIDEO_FOCUS_FOCUSED};
use crate::message::{message_header, message_payload, read_tag};
use crate::session::{HandlerResponse, IntegrationRequest};
use crate::{AudioChannelType, ChannelId, FrameIoError};

verus! {

/// What one step of an audio output channel must produce for a payload.
pub open spec fn audio_step_ok(
    kind: AudioChannelType,
    channel: ChannelId,
    data: Seq<u8>,
    r: Result<HandlerResponse, FrameIoError>,
) -> bool {
    &&& (r matches Ok(h) ==> auth_frame_count(h.frames@) == 0 && !h.shutdown)
    &&& match AvChannelMessage::spec_decode(channel, data) {
        Option::Some(m) => match m {
            AvChannelMessage::SetupRequest(_, _) => r matches Ok(h) && {
                &&& h.frames@.len() == 1
                &&& h.frames@[0].header == message_header(channel, true)
                &&& h.frames@[0].data@ == message_payload(
                    MSG_AV_SETUP_RESPONSE,
                    setup_response_body(10),
                )
                &&& h.requests@.len() == 0
            },
            AvChannelMessage::MediaIndication(_, _, _) => r matches Ok(h) && {
                &&& h.frames@.len() == 0
                &&& h.requests@.len() == 1
                &&& h.requests@[0] matches IntegrationRequest::ReceiveAudio(k, _) && k == kind
            },
            AvChannelMessage::StartIndication(_, _) => r matches Ok(h) && h.frames@.len() == 0
                && h.requests@ == seq![IntegrationRequest::StartAudio(kind)],
            AvChannelMessage::StopIndication(_, _) => r matches Ok(h) && h.frames@.len() == 0
                && h.requests@ == seq![IntegrationRequest::StopAudio(kind)],
            AvChannelMessage::VideoFocusRequest(_, _) => r matches Ok(h) && {
                &&& h.frames@.len() == 1
                &&& h.frames@[0].data@ == message_payload(
                    MSG_VIDEO_FOCUS_INDICATION,
                    video_focus_indication_body(VIDEO_FOCUS_FOCUSED as u32),
                )
                &&& h.requests@.len() == 0
            },
            _ => r is Err,
        },
        Option::None => {
            if AndroidAutoCommonMessage::payload_is_common(data) {
                r matches Ok(h) && h.frames@.len() == 0 && h.requests@ == seq![
                    IntegrationRequest::OpenAudioChannel(kind),
                ]
            } else {
                r is Err
            }
        },
    }
}

/// Process one reassembled payload of an audio output channel.
pub fn audio_receive_data(kind: AudioChannelType, channel: ChannelId, data: &Vec<u8>) -> (r: Result<
    HandlerResponse,
    FrameIoError,
>)
    ensures
        audio_step_ok(kind, channel, data@, r),
{
    match AndroidAutoCommonMessage::try_from_payload(data) {
        Option::Some(AndroidAutoCommonMessage::ChannelOpenRequest(_)) => {
            let resp = HandlerResponse::with_request(IntegrationRequest::OpenAudioChannel(kind));
            proof {
                assert(resp.requests@ =~= seq![IntegrationRequest::OpenAudioChannel(kind)]);
            }
            return Ok(resp);
        },
        Option::Some(AndroidAutoCommonMessage::ChannelOpenResponse(_, _)) => (),
        Option::None => (),
    }
    let msg = match AvChannelMessage::try_from_payload(channel, data) {
        Option::None => {
            let tag = match read_tag(data) {
                Option::Some(t) => t,
                Option::None => 0,
            };
            return Err(FrameIoError::UnknownMessage(channel, tag));
        },
        Option::Some(m) => m,
    };
    match msg {
        AvChannelMessage::SetupRequest(_, _) => {
            let f = setup_response_frame(channel, 10);
            let resp = HandlerResponse::with_frame(f);
            proof {
                lemma_tag_of_message_payload(MSG_AV_SETUP_RESPONSE, setup_response_body(10));
                lemma_auth_count_singleton(resp.frames@);
            }
            Ok(resp)
        },
        AvChannelMessage::MediaIndication(_, _, payload) => {
            Ok(HandlerResponse::with_request(IntegrationRequest::ReceiveAudio(kind, payload)))
        },
        AvChannelMessage::StartIndication(_, _) => {
            let resp = HandlerResponse::with_request(IntegrationRequest::StartAudio(kind));
            proof {
                assert(resp.requests@ =~= seq![IntegrationRequest::StartAudio(kind)]);
            }
            Ok(resp)
        },
        AvChannelMessage::StopIndication(_, _) => {
            let resp = HandlerResponse::with_request(IntegrationRequest::StopAudio(kind));
            proof {
                assert(resp.requests@ =~= seq![IntegrationRequest::StopAudio(kind)]);
            }
            Ok(resp)
        },
        AvChannelMessage::VideoFocusRequest(_, _) => {
            let f = video_focus_indication_frame(channel, VIDEO_FOCUS_FOCUSED as u32);
            let resp = HandlerResponse::with_frame(f);
            proof {
                lemma_tag_of_message_payload(
                    MSG_VIDEO_FOCUS_INDICATION,
                    video_focus_indication_body(VIDEO_FOCUS_FOCUSED as u32),
                );
                lemma_auth_count_singleton(resp.frames@);
            }
            Ok(resp)
        },
        AvChannelMessage::AvChannelOpen(_, _) => {
            let tag = match read_tag(data) {
                Option::Some(t) => t,
                Option::None => 0,
            };
            Err(FrameIoError::UnknownMessage(channel, tag))
        },
        AvChannelMessage::MediaIndicationAck(_, _) => {
            let tag = match read_tag(data) {
                Option::Some(t) => t,
                Option::None => 0,
            };
            Err(FrameIoError::UnknownMessage(channel, tag))
        },
    }
}

/// Answer an audio channel-open request with the integration's outcome.
pub fn audio_open_result(channel: ChannelId, ok: bool) -> (r: HandlerResponse)
    ensures
        r.frames@.len() == 1,
        r.frames@[0].header == message_header(channel, true),
        r.frames@[0].data@ == message_payload(
            crate::ids::MSG_CHANNEL_OPEN_RESPONSE,
            crate::common::open_response_body(
                if ok {
                    crate::ids::STATUS_OK as u32
                } else {
                    crate::ids::STATUS_FAIL as u32
                },
            ),
        ),
        auth_frame_count(r.frames@) == 0,
        r.requests@.len() == 0,
        !r.shutdown,
{
    channel_open_response(channel, ok)
}

} // verus!
