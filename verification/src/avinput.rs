//! The microphone channel: the device opens and closes the audio input,
//! and start and stop indications bracket the capture.

use vstd::prelude::*;

use crate::av::{setup_response_body, setup_response_frame, AvChannelMessage};
use crate::common::{channel_open_response, AndroidAutoCommonMessage};
use crate::control::{auth_frame_count, lemma_auth_count_singleton, lemma_tag_of_message_payload};
use crate::descriptors::{av_input_channel_descriptor, av_input_descriptor_bytes, ChannelDescriptor};
use crate::ids::MSG_AV_SETUP_RESPONSE;
use crate::message::{message_header, message_payload, read_tag};
use crate::session::{HandlerResponse, IntegrationRequest};
use crate::{ChannelId, FrameIoError};

verus! {

/// The handler of the microphone channel.
pub struct AvInputChannelHandler {}

/// What one step of the microphone channel must produce for a payload.
pub open spec fn avinput_step_ok(
    channel: ChannelId,
    data: Seq<u8>,
    r: Result<HandlerResponse, FrameIoError>,
) -> bool {
    &&& (r matches Ok(h) ==> auth_frame_count(h.frames@) == 0 && !h.shutdown)
    &&& match AvChannelMessage::spec_decode(channel, data) {
        Option::Some(m) => match m {
            AvChannelMessage::AvChannelOpen(_, q) => r matches Ok(h) && h.frames@.len() == 0
                && h.requests@ == seq![
                if q.open {
                    IntegrationRequest::OpenAudioInput
                } else {
                    IntegrationRequest::CloseAudioInput
                },
            ],
            AvChannelMessage::SetupRequest(_, _) => r matches Ok(h) && {
                &&& h.frames@.len() == 1
                &&& h.frames@[0].header == message_header(channel, true)
                &&& h.frames@[0].data@ == message_payload(
                    MSG_AV_SETUP_RESPONSE,
                    setup_response_body(10),
                )
                &&& h.requests@.len() == 0
            },
            AvChannelMessage::StartIndication(_, _) => r matches Ok(h) && h.frames@.len() == 0
                && h.requests@ == seq![IntegrationRequest::StartAudioInput],
            AvChannelMessage::StopIndication(_, _) => r matches Ok(h) && h.frames@.len() == 0
                && h.requests@ == seq![IntegrationRequest::StopAudioInput],
            AvChannelMessage::MediaIndicationAck(_, _) => r matches Ok(h) && h.frames@.len() == 0
                && h.requests@.len() == 0,
            _ => r is Err,
        },
        Option::None => {
            if AndroidAutoCommonMessage::payload_is_common(data) {
                r matches Ok(h) && h.frames@.len() == 1 && h.requests@.len() == 0
            } else {
                r is Err
            }
        },
    }
}

impl AvInputChannelHandler {
    /// The descriptor the microphone channel contributes.
    pub fn build_channel(&self, chanid: ChannelId) -> (r: Option<ChannelDescriptor>)
        ensures
            r matches Some(d) && d.channel_id == chanid && d.bytes@ == av_input_descriptor_bytes(
                chanid,
            ) && d.wf(),
    {
        Option::Some(av_input_channel_descriptor(chanid))
    }

    /// Process one reassembled payload of the microphone channel: the
    /// channel opens unconditionally, input-open requests go to the
    /// integration, and start and stop indications bracket the capture.
    pub fn receive_data(&self, channel: ChannelId, data: &Vec<u8>) -> (r: Result<
        HandlerResponse,
        FrameIoError,
    >)
        ensures
            avinput_step_ok(channel, data@, r),
    {
        match AndroidAutoCommonMessage::try_from_payload(data) {
            Option::Some(AndroidAutoCommonMessage::ChannelOpenRequest(_)) => {
                return Ok(channel_open_response(channel, true));
            },
            Option::Some(AndroidAutoCommonMessage::ChannelOpenResponse(_, _)) => (),
            Option::None => (),
        }
        let msg = match AvChannelMessage::try_from_payload(channel, data) {
            Option::None => {
                let tag = match read_tag(data) {
                    Option::Some(t) => t,
                    Option::None => 0,
                };
                return Err(FrameIoError::UnknownMessage(channel, tag));
            },
            Option::Some(m) => m,
        };
        match msg {
            AvChannelMessage::AvChannelOpen(_, q) => {
                let resp = HandlerResponse::with_request(
                    if q.open {
                        IntegrationRequest::OpenAudioInput
                    } else {
                        IntegrationRequest::CloseAudioInput
                    },
                );
                proof {
                    assert(resp.requests@ =~= seq![
                        if q.open {
                            IntegrationRequest::OpenAudioInput
                        } else {
                            IntegrationRequest::CloseAudioInput
                        },
                    ]);
                }
                Ok(resp)
            },
            AvChannelMessage::SetupRequest(_, _) => {
                let f = setup_response_frame(channel, 10);
                let resp = HandlerResponse::with_frame(f);
                proof {
                    lemma_tag_of_message_payload(MSG_AV_SETUP_RESPONSE, setup_response_body(10));
                    lemma_auth_count_singleton(resp.frames@);
                }
                Ok(resp)
            },
            AvChannelMessage::StartIndication(_, _) => {
                let resp = HandlerResponse::with_request(IntegrationRequest::StartAudioInput);
                proof {
                    assert(resp.requests@ =~= seq![IntegrationRequest::StartAudioInput]);
                }
                Ok(resp)
            },
            AvChannelMessage::StopIndication(_, _) => {
                let resp = HandlerResponse::with_request(IntegrationRequest::StopAudioInput);
                proof {
                    assert(resp.requests@ =~= seq![IntegrationRequest::StopAudioInput]);
                }
                Ok(resp)
            },
            AvChannelMessage::MediaIndicationAck(_, _) => Ok(HandlerResponse::empty()),
            _ => {
                let tag = match read_tag(data) {
                    Option::Some(t) => t,
                    Option::None => 0,
                };
                Err(FrameIoError::UnknownMessage(channel, tag))
            },
        }
    }

    /// Judge the integration's outcome of opening the audio input:
    /// failure ends the session.
    pub fn open_result(&self, ok: bool) -> (r: Result<(), FrameIoError>)
        ensures
            r is Err <==> !ok,
            !ok ==> r == Err::<(), FrameIoError>(FrameIoError::AudioInputOpenError),
    {
        if ok {
            Ok(())
        } else {
            Err(FrameIoError::AudioInputOpenError)
        }
    }

    /// Judge the integration's outcome of closing the audio input:
    /// failure ends the session.
    pub fn close_result(&self, ok: bool) -> (r: Result<(), FrameIoError>)
        ensures
            r is Err <==> !ok,
            !ok ==> r == Err::<(), FrameIoError>(FrameIoError::AudioInputCloseError),
    {
        if ok {
            Ok(())
        } else {
            Err(FrameIoError::AudioInputCloseError)
        }
    }
}

} // verus!
