//! The video channel: stream setup, focus, and the media frames whose
//! acknowledgements carry the session recorded from the device's start
//! indication.

use vstd::prelude::*;

use crate::av::{media_ack_body, media_ack_frame, setup_response_body, setup_response_frame,
    video_focus_indication_body, video_focus_indication_frame, AvChannelMessage};
use crate::common::AndroidAutoCommonMessage;
use crate::control::{auth_frame_count, lemma_auth_count_singleton, lemma_tag_of_message_payload};
use crate::descriptors::{video_channel_descriptor, video_descriptor_bytes, ChannelDescriptor};
use crate::ids::{MSG_AV_MEDIA_ACK_INDICATION, MSG_AV_SETUP_RESPONSE, MSG_CHANNEL_OPEN_RESPONSE,
    MSG_VIDEO_FOCUS_INDICATION, VIDEO_FOCUS_FOCUSED};
use crate::message::{message_header, message_payload, read_tag};
use crate::session::{HandlerResponse, IntegrationRequest};
use crate::{ChannelId, FrameIoError, FrameSequenceError, VideoConfiguration};

verus! {

/// The per-session state of the video stream.
pub struct InnerChannelHandler {
    /// The session identifier of the running stream, recorded from the
    /// device's start indication.
    pub session: Option<u32>,
}

impl InnerChannelHandler {
    /// A stream with no recorded session.
    pub fn new() -> (r: InnerChannelHandler)
        ensures
            r.session is None,
    {
        InnerChannelHandler { session: Option::None }
    }
}

/// The handler of the video channel.
pub struct VideoChannelHandler {
    /// The stream state.
    pub inner: InnerChannelHandler,
}

/// What one step of the video channel must produce for a payload: the
/// relation between the handler before and after the step, the payload,
/// and the step's outcome.
pub open spec fn video_step_ok(
    pre: VideoChannelHandler,
    post: VideoChannelHandler,
    channel: ChannelId,
    data: Seq<u8>,
    r: Result<HandlerResponse, FrameIoError>,
) -> bool {
    &&& match r {
        Ok(h) => auth_frame_count(h.frames@) == 0 && !h.shutdown,
        Err(_) => post == pre,
    }
    &&& match AvChannelMessage::spec_decode(channel, data) {
        Option::Some(m) => match m {
            AvChannelMessage::StartIndication(_, si) => r is Ok && post.inner.session == Some(
                si.session,
            ),
            AvChannelMessage::MediaIndication(_, ts, _) => {
                &&& (pre.inner.session is None <==> r == Err::<HandlerResponse, FrameIoError>(
                    FrameIoError::Sequence(FrameSequenceError::VideoChannelNotOpen),
                ))
                &&& (pre.inner.session matches Some(s) ==> r matches Ok(h) && {
                    &&& h.frames@.len() == 1
                    &&& h.frames@[0].header == message_header(channel, true)
                    &&& h.frames@[0].data@ == message_payload(
                        MSG_AV_MEDIA_ACK_INDICATION,
                        media_ack_body(s),
                    )
                    &&& h.requests@.len() == 1
                    &&& h.requests@[0] matches IntegrationRequest::ReceiveVideo(_, t) && t == ts
                    &&& post == pre
                })
            },
            AvChannelMessage::SetupRequest(_, _) => r matches Ok(h) && {
                &&& h.frames@.len() == 1
                &&& h.frames@[0].data@ == message_payload(
                    MSG_AV_SETUP_RESPONSE,
                    setup_response_body(1),
                )
                &&& h.requests@ == seq![IntegrationRequest::WaitForVideoFocus]
                &&& post == pre
            },
            AvChannelMessage::VideoFocusRequest(_, q) => r matches Ok(h) && {
                &&& h.frames@.len() == 1
                &&& h.frames@[0].data@ == message_payload(
                    MSG_VIDEO_FOCUS_INDICATION,
                    video_focus_indication_body(q.mode),
                )
                &&& h.requests@ == seq![
                    IntegrationRequest::SetVideoFocus(q.mode as u64 == VIDEO_FOCUS_FOCUSED),
                ]
                &&& post == pre
            },
            AvChannelMessage::StopIndication(_, _) => r is Ok && post == pre,
            _ => true,
        },
        Option::None => {
            if AndroidAutoCommonMessage::payload_is_common(data) {
                r matches Ok(h) && h.requests@ == seq![IntegrationRequest::SetupVideo]
                    && h.frames@.len() == 0 && post == pre
            } else {
                r is Err
            }
        },
    }
}

impl VideoChannelHandler {
    /// A fresh handler with no recorded session.
    pub fn new() -> (r: VideoChannelHandler)
        ensures
            r.inner.session is None,
    {
        VideoChannelHandler { inner: InnerChannelHandler::new() }
    }

    /// The descriptor the video channel contributes to service discovery.
    pub fn build_channel(&self, v: &VideoConfiguration, chanid: ChannelId) -> (r: Option<
        ChannelDescriptor,
    >)
        ensures
            r matches Some(d) && d.channel_id == chanid && d.bytes@ == video_descriptor_bytes(
                chanid,
                *v,
            ) && d.wf(),
    {
        Option::Some(video_channel_descriptor(chanid, v))
    }

    /// Process one reassembled payload of the video channel: opening asks
    /// the integration to set the sink up, setup is answered with one
    /// unacknowledged frame allowed and a wait for focus, focus requests
    /// are echoed, a start indication records its session, and each media
    /// payload is delivered and acknowledged under the recorded session.
    pub fn receive_data(&mut self, channel: ChannelId, data: &Vec<u8>) -> (r: Result<
        HandlerResponse,
        FrameIoError,
    >)
        ensures
            video_step_ok(*old(self), *final(self), channel, data@, r),
    {
        match AndroidAutoCommonMessage::try_from_payload(data) {
            Option::Some(AndroidAutoCommonMessage::ChannelOpenRequest(_)) => {
                let resp = HandlerResponse::with_request(IntegrationRequest::SetupVideo);
                proof {
                    assert(resp.requests@ =~= seq![IntegrationRequest::SetupVideo]);
                }
                return Ok(resp);
            },
            Option::Some(AndroidAutoCommonMessage::ChannelOpenResponse(_, _)) => (),
            Option::None => (),
        }
        let msg = match AvChannelMessage::try_from_payload(channel, data) {
            Option::None => {
                let tag = match read_tag(data) {
                    Option::Some(t) => t,
                    Option::None => 0,
                };
                return Err(FrameIoError::UnknownMessage(channel, tag));
            },
            Option::Some(m) => m,
        };
        match msg {
            AvChannelMessage::StartIndication(_, si) => {
                self.inner.session = Option::Some(si.session);
                Ok(HandlerResponse::empty())
            },
            AvChannelMessage::MediaIndication(_, ts, payload) => {
                let session = match self.inner.session {
                    Option::None => {
                        return Err(
                            FrameIoError::Sequence(FrameSequenceError::VideoChannelNotOpen),
                        );
                    },
                    Option::Some(s) => s,
                };
                let f = media_ack_frame(channel, session);
                let mut resp = HandlerResponse::with_frame(f);
                resp.requests.push(IntegrationRequest::ReceiveVideo(payload, ts));
                proof {
                    lemma_tag_of_message_payload(MSG_AV_MEDIA_ACK_INDICATION, media_ack_body(session));
                    lemma_auth_count_singleton(resp.frames@);
                }
                Ok(resp)
            },
            AvChannelMessage::SetupRequest(_, _) => {
                let f = setup_response_frame(channel, 1);
                let mut resp = HandlerResponse::with_frame(f);
                resp.requests.push(IntegrationRequest::WaitForVideoFocus);
                proof {
                    lemma_tag_of_message_payload(MSG_AV_SETUP_RESPONSE, setup_response_body(1));
                    lemma_auth_count_singleton(resp.frames@);
                    assert(resp.requests@ =~= seq![IntegrationRequest::WaitForVideoFocus]);
                }
                Ok(resp)
            },
            AvChannelMessage::VideoFocusRequest(_, q) => {
                let f = video_focus_indication_frame(channel, q.mode);
                let mut resp = HandlerResponse::with_frame(f);
                resp.requests.push(
                    IntegrationRequest::SetVideoFocus(q.mode as u64 == VIDEO_FOCUS_FOCUSED),
                );
                proof {
                    lemma_tag_of_message_payload(
                        MSG_VIDEO_FOCUS_INDICATION,
                        video_focus_indication_body(q.mode),
                    );
                    lemma_auth_count_singleton(resp.frames@);
                    assert(resp.requests@ =~= seq![
                        IntegrationRequest::SetVideoFocus(q.mode as u64 == VIDEO_FOCUS_FOCUSED),
                    ]);
                }
                Ok(resp)
            },
            AvChannelMessage::StopIndication(_, _) => Ok(HandlerResponse::empty()),
            AvChannelMessage::AvChannelOpen(_, _) => {
                let tag = match read_tag(data) {
                    Option::Some(t) => t,
                    Option::None => 0,
                };
                Err(FrameIoError::UnknownMessage(channel, tag))
            },
            AvChannelMessage::MediaIndicationAck(_, _) => {
                let tag = match read_tag(data) {
                    Option::Some(t) => t,
                    Option::None => 0,
                };
                Err(FrameIoError::UnknownMessage(channel, tag))
            },
        }
    }

    /// Answer the channel-open request once the integration has set the
    /// video sink up, or failed to.
    pub fn open_result(&self, channel: ChannelId, ok: bool) -> (r: HandlerResponse)
        ensures
            r.frames@.len() == 1,
            r.frames@[0].header == message_header(channel, true),
            r.frames@[0].data@ == message_payload(
                MSG_CHANNEL_OPEN_RESPONSE,
                crate::common::open_response_body(
                    if ok {
                        crate::ids::STATUS_OK as u32
                    } else {
                        crate::ids::STATUS_FAIL as u32
                    },
                ),
            ),
            auth_frame_count(r.frames@) == 0,
            r.requests@.len() == 0,
            !r.shutdown,
    {
        let f = AndroidAutoCommonMessage::open_response_frame(channel, ok);
        let resp = HandlerResponse::with_frame(f);
        proof {
            lemma_tag_of_message_payload(
                MSG_CHANNEL_OPEN_RESPONSE,
                crate::common::open_response_body(
                    if ok {
                        crate::ids::STATUS_OK as u32
                    } else {
                        crate::ids::STATUS_FAIL as u32
                    },
                ),
            );
            lemma_auth_count_singleton(resp.frames@);
        }
        resp
    }

    /// Announce that video holds the focus, once the integration is ready
    /// for the stream.
    pub fn focus_ready(&self, channel: ChannelId) -> (r: HandlerResponse)
        ensures
            r.frames@.len() == 1,
            r.frames@[0].header == message_header(channel, true),
            r.frames@[0].data@ == message_payload(
                MSG_VIDEO_FOCUS_INDICATION,
                video_focus_indication_body(VIDEO_FOCUS_FOCUSED as u32),
            ),
            auth_frame_count(r.frames@) == 0,
            r.requests@.len() == 0,
            !r.shutdown,
    {
        let f = video_focus_indication_frame(channel, VIDEO_FOCUS_FOCUSED as u32);
        let resp = HandlerResponse::with_frame(f);
        proof {
            lemma_tag_of_message_payload(
                MSG_VIDEO_FOCUS_INDICATION,
                video_focus_indication_body(VIDEO_FOCUS_FOCUSED as u32),
            );
            lemma_auth_count_singleton(resp.frames@);
        }
        resp
    }
}

} // verus!
