//! The media-status channel: playback and metadata updates are observed
//! and carry no obligation; opening succeeds unconditionally.

use vstd::prelude::*;

use crate::bytes::be16_value;
use crate::common::{channel_open_response, AndroidAutoCommonMessage};
use crate::control::auth_frame_count;
use crate::descriptors::{media_status_channel_descriptor, media_status_descriptor_bytes,
    ChannelDescriptor};
use crate::ids::{MSG_MEDIA_METADATA, MSG_MEDIA_PLAYBACK};
use crate::message::{message_payload, read_tag};
use crate::session::HandlerResponse;
use crate::{ChannelId, FrameIoError};

verus! {

/// A message of the media-status channel.
#[derive(Debug)]
pub enum MediaStatusMessage {
    /// A playback update; its body is carried along.
    Playback(ChannelId, Vec<u8>),
    /// A metadata update; its body is carried along.
    Metadata(ChannelId, Vec<u8>),
    /// An update whose body did not parse.
    Invalid,
}

/// What one step of the media-status channel must produce for a payload.
pub open spec fn mediastatus_step_ok(
    channel: ChannelId,
    data: Seq<u8>,
    r: Result<HandlerResponse, FrameIoError>,
) -> bool {
    &&& (r matches Ok(h) ==> auth_frame_count(h.frames@) == 0 && !h.shutdown && h.requests@.len()
        == 0)
    &&& (data.len() >= 2 && (be16_value(data[0], data[1]) == MSG_MEDIA_PLAYBACK || be16_value(
        data[0],
        data[1],
    ) == MSG_MEDIA_METADATA) ==> (r matches Ok(h) && h.frames@.len() == 0))
    &&& (AndroidAutoCommonMessage::payload_is_common(data) ==> (r matches Ok(h) && h.frames@.len()
        == 1 && h.frames@[0].data@ == message_payload(
        crate::ids::MSG_CHANNEL_OPEN_RESPONSE,
        crate::common::open_response_body(crate::ids::STATUS_OK as u32),
    )))
}

/// The handler of the media-status channel.
pub struct MediaStatusChannelHandler {}

impl MediaStatusChannelHandler {
    /// The descriptor the media-status channel contributes.
    pub fn build_channel(&self, chanid: ChannelId) -> (r: Option<ChannelDescriptor>)
        ensures
            r matches Some(d) && d.channel_id == chanid && d.bytes@
                == media_status_descriptor_bytes(chanid) && d.wf(),
    {
        Option::Some(media_status_channel_descriptor(chanid))
    }

    /// Process one reassembled payload of the media-status channel.
    pub fn receive_data(&self, channel: ChannelId, data: &Vec<u8>) -> (r: Result<
        HandlerResponse,
        FrameIoError,
    >)
        ensures
            mediastatus_step_ok(channel, data@, r),
    {
        let tag = match read_tag(data) {
            Option::Some(t) => t,
            Option::None => 0,
        };
        if data.len() >= 2 && (tag == MSG_MEDIA_PLAYBACK || tag == MSG_MEDIA_METADATA) {
            Ok(HandlerResponse::empty())
        } else {
            match AndroidAutoCommonMessage::try_from_payload(data) {
                Option::Some(AndroidAutoCommonMessage::ChannelOpenRequest(_)) => {
                    Ok(channel_open_response(channel, true))
                },
                _ => Err(FrameIoError::UnknownMessage(channel, tag)),
            }
        }
    }
}

} // verus!
