//! The navigation channel: status, turn, and distance events are carried
//! to the integration's navigation callbacks.

use vstd::prelude::*;

use crate::bytes::be16_value;
use crate::common::{channel_open_response, AndroidAutoCommonMessage};
use crate::control::auth_frame_count;
use crate::descriptors::{navigation_channel_descriptor, navigation_descriptor_bytes,
    ChannelDescriptor};
use crate::ids::{MSG_NAV_DISTANCE_EVENT, MSG_NAV_STATUS, MSG_NAV_TURN_EVENT};
use crate::message::{message_body, message_payload, read_tag};
use crate::session::{HandlerResponse, IntegrationRequest};
use crate::{ChannelId, FrameIoError};

verus! {

/// A message of the navigation channel.
#[derive(Debug)]
pub enum NavigationMessage {
    /// A navigation status update; its body is carried along.
    Status(ChannelId, Vec<u8>),
    /// A turn event; its body is carried along.
    TurnIndication(ChannelId, Vec<u8>),
    /// A distance event; its body is carried along.
    DistanceIndication(ChannelId, Vec<u8>),
}

/// What one step of the navigation channel must produce for a payload.
pub open spec fn navigation_step_ok(
    channel: ChannelId,
    data: Seq<u8>,
    r: Result<HandlerResponse, FrameIoError>,
) -> bool {
    &&& (r matches Ok(h) ==> auth_frame_count(h.frames@) == 0 && !h.shutdown)
    &&& (data.len() >= 2 ==> {
        let tag = be16_value(data[0], data[1]);
        &&& tag == MSG_NAV_STATUS ==> (r matches Ok(h) && {
            &&& h.frames@.len() == 0
            &&& h.requests@.len() == 1
            &&& h.requests@[0] matches IntegrationRequest::NavigationStatus(b) && b@ == data.skip(2)
        })
        &&& tag == MSG_NAV_TURN_EVENT ==> (r matches Ok(h) && {
            &&& h.frames@.len() == 0
            &&& h.requests@.len() == 1
            &&& h.requests@[0] matches IntegrationRequest::NavigationTurn(b) && b@ == data.skip(2)
        })
        &&& tag == MSG_NAV_DISTANCE_EVENT ==> (r matches Ok(h) && {
            &&& h.frames@.len() == 0
            &&& h.requests@.len() == 1
            &&& h.requests@[0] matches IntegrationRequest::NavigationDistance(b) && b@ == data.skip(
                2,
            )
        })
    })
    &&& (AndroidAutoCommonMessage::payload_is_common(data) ==> (r matches Ok(h) && h.frames@.len()
        == 1 && h.frames@[0].data@ == message_payload(
        crate::ids::MSG_CHANNEL_OPEN_RESPONSE,
        crate::common::open_response_body(crate::ids::STATUS_OK as u32),
    )))
}

/// The handler of the navigation channel.
pub struct NavigationChannelHandler {}

impl NavigationChannelHandler {
    /// The descriptor the navigation channel contributes.
    pub fn build_channel(&self, chanid: ChannelId) -> (r: Option<ChannelDescriptor>)
        ensures
            r matches Some(d) && d.channel_id == chanid && d.bytes@ == navigation_descriptor_bytes(
                chanid,
            ) && d.wf(),
    {
        Option::Some(navigation_channel_descriptor(chanid))
    }

    /// Process one reassembled payload of the navigation channel: each
    /// event body goes to the matching integration callback; opening
    /// succeeds unconditionally.
    pub fn receive_data(&self, channel: ChannelId, data: &Vec<u8>) -> (r: Result<
        HandlerResponse,
        FrameIoError,
    >)
        ensures
            navigation_step_ok(channel, data@, r),
    {
        let tag = match read_tag(data) {
            Option::Some(t) => t,
            Option::None => 0,
        };
        if data.len() >= 2 && tag == MSG_NAV_STATUS {
            Ok(
                HandlerResponse::with_request(
                    IntegrationRequest::NavigationStatus(message_body(data)),
                ),
            )
        } else if data.len() >= 2 && tag == MSG_NAV_TURN_EVENT {
            Ok(
                HandlerResponse::with_request(
                    IntegrationRequest::NavigationTurn(message_body(data)),
                ),
            )
        } else if data.len() >= 2 && tag == MSG_NAV_DISTANCE_EVENT {
            Ok(
                HandlerResponse::with_request(
                    IntegrationRequest::NavigationDistance(message_body(data)),
                ),
            )
        } else {
            match AndroidAutoCommonMessage::try_from_payload(data) {
                Option::Some(AndroidAutoCommonMessage::ChannelOpenRequest(_)) => {
                    Ok(channel_open_response(channel, true))
                },
                _ => Err(FrameIoError::UnknownMessage(channel, tag)),
            }
        }
    }
}

} // verus!
