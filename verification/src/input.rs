//! The input channel: the device asks to bind key codes, and the binding
//! succeeds only when every code is one the head unit declared.

use vstd::prelude::*;

use crate::bytes::be16_value;
use crate::common::{channel_open_response, AndroidAutoCommonMessage};
use crate::control::{auth_frame_count, lemma_auth_count_singleton, lemma_tag_of_message_payload};
use crate::descriptors::{input_channel_descriptor, input_descriptor_bytes, ChannelDescriptor};
use crate::ids::{MSG_BINDING_REQUEST, MSG_BINDING_RESPONSE, STATUS_FAIL, STATUS_OK};
use crate::message::{build_message_frame, message_body, message_header, message_payload, read_tag};
use crate::proto::{collect_varints, fields_bytes, lemma_field_bytes_len, lemma_fields_bytes_one,
    only_varint_fields_upto, parse_fields, push_varint_field, spec_parse_fields, varints_of,
    FieldV};
use crate::session::{HandlerResponse, IntegrationRequest};
use crate::{ChannelId, FrameIoError, InputConfiguration};

verus! {

/// A message of the input channel.
#[derive(Debug)]
pub enum InputMessage {
    /// A request to bind the given scan codes.
    BindingRequest(ChannelId, Vec<u32>),
    /// The head unit's answer to a binding request.
    BindingResponse(ChannelId, u32),
    /// An input event pushed by the head unit; its body is carried along.
    InputEvent(ChannelId, Vec<u8>),
}

/// The parse of a binding request body: the scan codes, each its own
/// varint field.
pub open spec fn spec_parse_binding_request(b: Seq<u8>) -> Option<Seq<u64>> {
    match spec_parse_fields(b, 0) {
        Option::None => Option::None,
        Option::Some(fs) => {
            if only_varint_fields_upto(fs, 1) {
                Option::Some(varints_of(fs, 1))
            } else {
                Option::None
            }
        },
    }
}

/// Parse a binding request body, as the specification parse does.
fn parse_binding_request(body: &Vec<u8>) -> (r: Option<Vec<u64>>)
    ensures
        match r {
            Option::Some(codes) => spec_parse_binding_request(body@) == Some(codes@),
            Option::None => spec_parse_binding_request(body@) is None,
        },
{
    let fields = match parse_fields(body) {
        Option::None => {
            return Option::None;
        },
        Option::Some(fs) => fs,
    };
    let mut cols = match collect_varints(&fields, 1) {
        Option::None => {
            return Option::None;
        },
        Option::Some(c) => c,
    };
    proof {
        assert(varints_of(crate::proto::fields_view(fields@), 1) == cols@[0int]@);
    }
    let codes = cols.remove(0);
    Option::Some(codes)
}

/// Whether every requested code is among the declared key codes.
pub open spec fn all_codes_supported(codes: Seq<u64>, keycodes: Seq<u32>) -> bool {
    forall|i: int|
        0 <= i < codes.len() ==> (#[trigger] codes[i]) <= 0xFFFFFFFF && keycodes.contains(
            codes[i] as u32,
        )
}

/// The body of a binding response.
pub open spec fn binding_response_body(ok: bool) -> Seq<u8> {
    fields_bytes(
        seq![
            (
                1u32,
                FieldV::VInt(
                    if ok {
                        STATUS_OK
                    } else {
                        STATUS_FAIL
                    },
                ),
            ),
        ],
    )
}

/// Build the frame of a binding response.
pub fn binding_response_frame(channel: ChannelId, ok: bool) -> (r: crate::frame::AndroidAutoFrame)
    ensures
        r.header == message_header(channel, true),
        r.data@ == message_payload(MSG_BINDING_RESPONSE, binding_response_body(ok)),
        r.wf(),
{
    let status: u64 = if ok {
        STATUS_OK
    } else {
        STATUS_FAIL
    };
    let mut body: Vec<u8> = Vec::new();
    push_varint_field(&mut body, 1, status);
    proof {
        lemma_fields_bytes_one(1, FieldV::VInt(status));
        lemma_field_bytes_len(1, FieldV::VInt(status));
        assert(body@ =~= binding_response_body(ok));
    }
    build_message_frame(channel, true, MSG_BINDING_RESPONSE, body)
}

/// What one step of the input channel must produce for a payload, given
/// the declared input configuration.
pub open spec fn input_step_ok(
    cfg: InputConfiguration,
    channel: ChannelId,
    data: Seq<u8>,
    r: Result<HandlerResponse, FrameIoError>,
) -> bool {
    &&& (r matches Ok(h) ==> auth_frame_count(h.frames@) == 0 && !h.shutdown)
    &&& (data.len() >= 2 && be16_value(data[0], data[1]) == MSG_BINDING_REQUEST ==> match
        spec_parse_binding_request(data.skip(2)) {
        Option::None => r is Err,
        Option::Some(codes) => r matches Ok(h) && {
            if all_codes_supported(codes, cfg.keycodes@) {
                &&& h.frames@.len() == 0
                &&& h.requests@.len() == 1
                &&& h.requests@[0] matches IntegrationRequest::BindInputCodes(_)
            } else {
                &&& h.frames@.len() == 1
                &&& h.frames@[0].data@ == message_payload(
                    MSG_BINDING_RESPONSE,
                    binding_response_body(false),
                )
                &&& h.requests@.len() == 0
            }
        },
    })
    &&& (AndroidAutoCommonMessage::payload_is_common(data) ==> (r matches Ok(h) && h.frames@.len()
        == 1 && h.frames@[0].data@ == message_payload(
        crate::ids::MSG_CHANNEL_OPEN_RESPONSE,
        crate::common::open_response_body(crate::ids::STATUS_OK as u32),
    )))
}

/// The handler of the input channel, holding the declared input
/// capabilities.
pub struct InputChannelHandler {
    /// The declared key codes and touch screen.
    pub config: InputConfiguration,
}

impl InputChannelHandler {
    /// The descriptor the input channel contributes.
    pub fn build_channel(&self, chanid: ChannelId) -> (r: Option<ChannelDescriptor>)
        requires
            self.config.keycodes@.len() <= 256,
        ensures
            r matches Some(d) && d.channel_id == chanid && d.bytes@ == input_descriptor_bytes(
                chanid,
                self.config,
            ) && d.wf(),
    {
        Option::Some(input_channel_descriptor(chanid, &self.config))
    }

    /// Process one reassembled payload of the input channel: a binding
    /// request whose codes are all declared goes to the integration; one
    /// with an undeclared code is refused at once; opening succeeds
    /// unconditionally.
    pub fn receive_data(&self, channel: ChannelId, data: &Vec<u8>) -> (r: Result<
        HandlerResponse,
        FrameIoError,
    >)
        ensures
            input_step_ok(self.config, channel, data@, r),
    {
        let tag = match read_tag(data) {
            Option::Some(t) => t,
            Option::None => 0,
        };
        if data.len() >= 2 && tag == MSG_BINDING_REQUEST {
            let body = message_body(data);
            let codes = match parse_binding_request(&body) {
                Option::None => {
                    return Err(FrameIoError::InvalidPayload(channel, tag));
                },
                Option::Some(c) => c,
            };
            let n = codes.len();
            let mut supported = true;
            let mut i: usize = 0;
            while i < n
                invariant
                    i <= n,
                    n == codes@.len(),
                    supported <==> all_codes_supported(
                        codes@.take(i as int),
                        self.config.keycodes@,
                    ),
                decreases n - i,
            {
                let ghost pre = codes@.take(i as int);
                let c = codes[i];
                let within = c <= 0xFFFFFFFF && contains_u32(&self.config.keycodes, c as u32);
                proof {
                    assert(codes@.take(i + 1) =~= pre.push(codes@[i as int]));
                    assert(codes@.take(i + 1)[i as int] == codes@[i as int]);
                    if !within {
                        assert(!all_codes_supported(codes@.take(i + 1), self.config.keycodes@));
                    } else {
                        if all_codes_supported(pre, self.config.keycodes@) {
                            assert forall|j: int| 0 <= j < i + 1 implies (#[trigger] codes@.take(
                                i + 1,
                            )[j]) <= 0xFFFFFFFF && self.config.keycodes@.contains(
                                codes@.take(i + 1)[j] as u32,
                            ) by {
                                if j < i {
                                    assert(pre[j] == codes@.take(i + 1)[j]);
                                }
                            }
                        }
                    }
                }
                supported = supported && within;
                i = i + 1;
            }
            proof {
                assert(codes@.take(n as int) =~= codes@);
            }
            if supported {
                let mut req_codes: Vec<u32> = Vec::new();
                let mut j: usize = 0;
                while j < n
                    invariant
                        j <= n,
                        n == codes@.len(),
                        all_codes_supported(codes@, self.config.keycodes@),
                    decreases n - j,
                {
                    proof {
                        assert(codes@[j as int] <= 0xFFFFFFFF);
                    }
                    req_codes.push(codes[j] as u32);
                    j = j + 1;
                }
                let resp = HandlerResponse::with_request(
                    IntegrationRequest::BindInputCodes(req_codes),
                );
                Ok(resp)
            } else {
                let f = binding_response_frame(channel, false);
                let resp = HandlerResponse::with_frame(f);
                proof {
                    lemma_tag_of_message_payload(
                        MSG_BINDING_RESPONSE,
                        binding_response_body(false),
                    );
                    lemma_auth_count_singleton(resp.frames@);
                }
                Ok(resp)
            }
        } else {
            match AndroidAutoCommonMessage::try_from_payload(data) {
                Option::Some(AndroidAutoCommonMessage::ChannelOpenRequest(_)) => {
                    Ok(channel_open_response(channel, true))
                },
                _ => Err(FrameIoError::UnknownMessage(channel, tag)),
            }
        }
    }

    /// Answer a binding request once the integration has bound every code,
    /// or failed to.
    pub fn binding_result(&self, channel: ChannelId, ok: bool) -> (r: HandlerResponse)
        ensures
            r.frames@.len() == 1,
            r.frames@[0].header == message_header(channel, true),
            r.frames@[0].data@ == message_payload(
                MSG_BINDING_RESPONSE,
                binding_response_body(ok),
            ),
            auth_frame_count(r.frames@) == 0,
            r.requests@.len() == 0,
            !r.shutdown,
    {
        let f = binding_response_frame(channel, ok);
        let resp = HandlerResponse::with_frame(f);
        proof {
            lemma_tag_of_message_payload(MSG_BINDING_RESPONSE, binding_response_body(ok));
            lemma_auth_count_singleton(resp.frames@);
        }
        resp
    }
}

/// Whether a vector holds the given value.
pub fn contains_u32(v: &Vec<u32>, x: u32) -> (r: bool)
    ensures
        r == v@.contains(x),
{
    let n = v.len();
    let mut i: usize = 0;
    while i < n
        invariant
            i <= n,
            n == v@.len(),
            forall|j: int| 0 <= j < i ==> v@[j] != x,
        decreases n - i,
    {
        if v[i] == x {
            proof {
                assert(v@.contains(x)) by {
                    assert(v@[i as int] == x);
                }
            }
            return true;
        }
        i = i + 1;
    }
    proof {
        assert(!v@.contains(x)) by {
            if v@.contains(x) {
                let j = choose|j: int| 0 <= j < v@.len() && v@[j] == x;
                assert(v@[j] != x);
            }
        }
    }
    false
}

} // verus!
