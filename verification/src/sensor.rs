//! The sensor channel: the device asks a sensor to start, and the head
//! unit answers with the integration's outcome.

use vstd::prelude::*;

use crate::bytes::be16_value;
use crate::common::{channel_open_response, AndroidAutoCommonMessage};
use crate::control::{auth_frame_count, lemma_auth_count_singleton, lemma_tag_of_message_payload};
use crate::descriptors::{sensor_channel_descriptor, sensor_descriptor_bytes, ChannelDescriptor};
use crate::ids::{MSG_SENSOR_START_REQUEST, MSG_SENSOR_START_RESPONSE, STATUS_FAIL, STATUS_OK};
use crate::message::{build_message_frame, message_body, message_header, message_payload, read_tag};
use crate::proto::{collect_varints, fields_bytes, lemma_field_bytes_len, lemma_fields_bytes_one,
    only_varint_fields_upto, parse_fields, spec_parse_fields, push_varint_field, varints_of,
    FieldV};
use crate::session::{HandlerResponse, IntegrationRequest};
use crate::{ChannelId, FrameIoError, SensorInformation};

verus! {

/// A message of the sensor channel.
#[derive(Debug)]
pub enum SensorMessage {
    /// A request to start the given sensor type.
    SensorStartRequest(ChannelId, u32),
    /// The head unit's answer to a start request.
    SensorStartResponse(ChannelId, u32),
    /// A sensor event pushed by the head unit; its body is carried along.
    Event(ChannelId, Vec<u8>),
}

/// The parse of a sensor start request body: field 1 is the sensor type,
/// which must be present; field 2 is a refresh rate, not needed here.
pub open spec fn spec_parse_sensor_start(b: Seq<u8>) -> Option<u32> {
    match spec_parse_fields(b, 0) {
        Option::None => Option::None,
        Option::Some(fs) => {
            if only_varint_fields_upto(fs, 2) && varints_of(fs, 1).len() >= 1 {
                Option::Some(varints_of(fs, 1).last() as u32)
            } else {
                Option::None
            }
        },
    }
}

/// Parse a sensor start request body, as the specification parse does.
fn parse_sensor_start(body: &Vec<u8>) -> (r: Option<u32>)
    ensures
        r == spec_parse_sensor_start(body@),
{
    let fields = match parse_fields(body) {
        Option::None => {
            return Option::None;
        },
        Option::Some(fs) => fs,
    };
    let cols = match collect_varints(&fields, 2) {
        Option::None => {
            return Option::None;
        },
        Option::Some(c) => c,
    };
    proof {
        assert(varints_of(crate::proto::fields_view(fields@), 1) == cols@[0int]@);
    }
    let types = &cols[0];
    if types.len() == 0 {
        return Option::None;
    }
    Option::Some(types[types.len() - 1] as u32)
}

/// The body of a sensor start response.
pub open spec fn sensor_start_response_body(ok: bool) -> Seq<u8> {
    fields_bytes(
        seq![
            (
                1u32,
                FieldV::VInt(
                    if ok {
                        STATUS_OK
                    } else {
                        STATUS_FAIL
                    },
                ),
            ),
        ],
    )
}

/// Build the frame of a sensor start response.
pub fn sensor_start_response_frame(channel: ChannelId, ok: bool) -> (r:
    crate::frame::AndroidAutoFrame)
    ensures
        r.header == message_header(channel, true),
        r.data@ == message_payload(MSG_SENSOR_START_RESPONSE, sensor_start_response_body(ok)),
        r.wf(),
{
    let status: u64 = if ok {
        STATUS_OK
    } else {
        STATUS_FAIL
    };
    let mut body: Vec<u8> = Vec::new();
    push_varint_field(&mut body, 1, status);
    proof {
        lemma_fields_bytes_one(1, FieldV::VInt(status));
        lemma_field_bytes_len(1, FieldV::VInt(status));
        assert(body@ =~= sensor_start_response_body(ok));
    }
    build_message_frame(channel, true, MSG_SENSOR_START_RESPONSE, body)
}

/// What one step of the sensor channel must produce for a payload.
pub open spec fn sensor_step_ok(
    channel: ChannelId,
    data: Seq<u8>,
    r: Result<HandlerResponse, FrameIoError>,
) -> bool {
    &&& (r matches Ok(h) ==> auth_frame_count(h.frames@) == 0 && !h.shutdown)
    &&& (data.len() >= 2 && be16_value(data[0], data[1]) == MSG_SENSOR_START_REQUEST ==> match
        spec_parse_sensor_start(data.skip(2)) {
        Option::None => r is Err,
        Option::Some(t) => (r matches Ok(h) && h.frames@.len() == 0 && h.requests@ == seq![
            IntegrationRequest::StartSensor(t),
        ]),
    })
    &&& (AndroidAutoCommonMessage::payload_is_common(data) ==> (r matches Ok(h) && h.frames@.len()
        == 1 && h.frames@[0].data@ == message_payload(
        crate::ids::MSG_CHANNEL_OPEN_RESPONSE,
        crate::common::open_response_body(crate::ids::STATUS_OK as u32),
    )))
}

/// The handler of the sensor channel, holding the declared sensor types.
pub struct SensorChannelHandler {
    /// The declared sensors.
    pub info: SensorInformation,
}

impl SensorChannelHandler {
    /// The descriptor the sensor channel contributes.
    pub fn build_channel(&self, chanid: ChannelId) -> (r: Option<ChannelDescriptor>)
        requires
            self.info.sensors@.len() <= 256,
        ensures
            r matches Some(d) && d.channel_id == chanid && d.bytes@ == sensor_descriptor_bytes(
                chanid,
                self.info,
            ) && d.wf(),
    {
        Option::Some(sensor_channel_descriptor(chanid, &self.info))
    }

    /// Process one reassembled payload of the sensor channel: a start
    /// request goes to the integration; opening succeeds unconditionally.
    pub fn receive_data(&self, channel: ChannelId, data: &Vec<u8>) -> (r: Result<
        HandlerResponse,
        FrameIoError,
    >)
        ensures
            sensor_step_ok(channel, data@, r),
    {
        let tag = match read_tag(data) {
            Option::Some(t) => t,
            Option::None => 0,
        };
        if data.len() >= 2 && tag == MSG_SENSOR_START_REQUEST {
            let body = message_body(data);
            match parse_sensor_start(&body) {
                Option::None => Err(FrameIoError::InvalidPayload(channel, tag)),
                Option::Some(t) => {
                    let resp = HandlerResponse::with_request(IntegrationRequest::StartSensor(t));
                    proof {
                        assert(resp.requests@ =~= seq![IntegrationRequest::StartSensor(t)]);
                    }
                    Ok(resp)
                },
            }
        } else {
            match AndroidAutoCommonMessage::try_from_payload(data) {
                Option::Some(AndroidAutoCommonMessage::ChannelOpenRequest(_)) => {
                    Ok(channel_open_response(channel, true))
                },
                _ => Err(FrameIoError::UnknownMessage(channel, tag)),
            }
        }
    }

    /// Answer a sensor start request with the integration's outcome.
    pub fn start_result(&self, channel: ChannelId, ok: bool) -> (r: HandlerResponse)
        ensures
            r.frames@.len() == 1,
            r.frames@[0].header == message_header(channel, true),
            r.frames@[0].data@ == message_payload(
                MSG_SENSOR_START_RESPONSE,
                sensor_start_response_body(ok),
            ),
            auth_frame_count(r.frames@) == 0,
            r.requests@.len() == 0,
            !r.shutdown,
    {
        let f = sensor_start_response_frame(channel, ok);
        let resp = HandlerResponse::with_frame(f);
        proof {
            lemma_tag_of_message_payload(
                MSG_SENSOR_START_RESPONSE,
                sensor_start_response_body(ok),
            );
            lemma_auth_count_singleton(resp.frames@);
        }
        resp
    }
}

} // verus!
