//! The control channel: version exchange, the TLS handshake tunneled in
//! handshake messages, the single authentication-complete announcement,
//! service discovery, audio focus, keepalive, and shutdown.

use vstd::prelude::*;

use crate::bytes::{be16_value, lemma_be16_bytes_of_value, push_be16};
use crate::descriptors::{build_service_discovery_body, descriptors_wf, head_unit_wf,
    service_discovery_body, ChannelDescriptor};
use crate::frame::AndroidAutoFrame;
use crate::ids::{AUDIO_FOCUS_STATE_GAIN, AUDIO_FOCUS_STATE_LOSS, AUDIO_FOCUS_STATE_NONE,
    AUDIO_FOCUS_TYPE_GAIN_NAVI, AUDIO_FOCUS_TYPE_RELEASE, AUTH_STATUS_FAIL, AUTH_STATUS_OK,
    MSG_AUDIO_FOCUS_REQUEST, MSG_AUDIO_FOCUS_RESPONSE, MSG_AUTH_COMPLETE, MSG_PING_REQUEST,
    MSG_PING_RESPONSE, MSG_SERVICE_DISCOVERY_REQUEST, MSG_SERVICE_DISCOVERY_RESPONSE,
    MSG_SHUTDOWN_REQUEST, MSG_SHUTDOWN_RESPONSE, MSG_SSL_HANDSHAKE, MSG_VERSION_REQUEST,
    MSG_VERSION_RESPONSE, SHUTDOWN_REASON_QUIT, VERSION_MAJOR, VERSION_MINOR,
    VERSION_STATUS_MISMATCH};
use crate::message::{build_message_frame, build_message_frames, message_body, message_header,
    message_payload, read_tag};
use crate::proto::{collect_varints, fields_bytes, lemma_field_bytes_len,
    lemma_fields_bytes_one, only_varint_fields_upto, parse_fields, push_varint_field,
    spec_parse_fields, varints_of, FieldV};
use crate::session::HandlerResponse;
use crate::tls::{do_handshake, tls_is_handshaking};
use crate::{AndroidAutoConfiguration, FrameIoError};

verus! {

/// Where the control channel stands in the session's lifecycle.
#[derive(Clone, Copy, Debug, PartialEq, Eq, Structural)]
pub enum ControlState {
    /// The version request was sent; its answer has not arrived.
    AwaitingVersionResponse,
    /// The TLS handshake is being tunneled through handshake messages.
    Handshaking,
    /// Authentication completed; the steady state.
    Ready,
}

impl ControlState {
    /// The lifecycle only moves forward; this rank orders its stations.
    pub open spec fn rank(self) -> int {
        match self {
            ControlState::AwaitingVersionResponse => 0,
            ControlState::Handshaking => 1,
            ControlState::Ready => 2,
        }
    }
}

/// A message of the control channel.
#[derive(Debug)]
pub enum AndroidAutoControlMessage {
    /// A request for version information.
    VersionRequest,
    /// The peer's version and whether it matches.
    VersionResponse {
        /// The peer's major version.
        major: u16,
        /// The peer's minor version.
        minor: u16,
        /// The match status; 0xFFFF marks incompatibility.
        status: u16,
    },
    /// TLS handshake bytes tunneled through the control channel.
    SslHandshake(Vec<u8>),
    /// The announcement that authentication completed.
    SslAuthComplete(bool),
    /// A request to list the sub-channels; its body is carried along.
    ServiceDiscoveryRequest(Vec<u8>),
    /// The encoded answer to a service discovery request.
    ServiceDiscoveryResponse(Vec<u8>),
    /// A request for audio focus, with its focus kind when one was sent.
    AudioFocusRequest(Option<u32>),
    /// The focus state granted in response.
    AudioFocusResponse(u32),
    /// A keepalive request carrying a timestamp.
    PingRequest(u64),
    /// The keepalive answer carrying a timestamp.
    PingResponse(u64),
    /// A request to shut the session down, with its reason.
    ShutdownRequest(u32),
    /// The acknowledgement of a shutdown request.
    ShutdownResponse,
}

/// The parse of a body whose single meaningful field is a varint: the last
/// value of field 1 when one is present.
pub open spec fn spec_parse_varint1(b: Seq<u8>) -> Option<Option<u64>> {
    match spec_parse_fields(b, 0) {
        Option::None => Option::None,
        Option::Some(fs) => {
            if only_varint_fields_upto(fs, 1) {
                Option::Some(
                    if varints_of(fs, 1).len() >= 1 {
                        Option::Some(varints_of(fs, 1).last())
                    } else {
                        Option::None
                    },
                )
            } else {
                Option::None
            }
        },
    }
}

/// Parse a single-varint body, as the specification parse does.
fn parse_varint1(body: &Vec<u8>) -> (r: Option<Option<u64>>)
    ensures
        r == spec_parse_varint1(body@),
{
    let fields = match parse_fields(body) {
        Option::None => {
            return Option::None;
        },
        Option::Some(fs) => fs,
    };
    let cols = match collect_varints(&fields, 1) {
        Option::None => {
            return Option::None;
        },
        Option::Some(c) => c,
    };
    proof {
        assert(varints_of(crate::proto::fields_view(fields@), 1) == cols@[0int]@);
    }
    let vals = &cols[0];
    if vals.len() >= 1 {
        Option::Some(Option::Some(vals[vals.len() - 1]))
    } else {
        Option::Some(Option::None)
    }
}

impl AndroidAutoControlMessage {
    /// What a control-channel payload decodes to, when it does.
    pub open spec fn spec_decode(data: Seq<u8>) -> Option<AndroidAutoControlMessage> {
        if data.len() < 2 {
            Option::None
        } else {
            let tag = be16_value(data[0], data[1]);
            let body = data.skip(2);
            if tag == MSG_VERSION_RESPONSE {
                if data.len() == 8 {
                    Option::Some(
                        AndroidAutoControlMessage::VersionResponse {
                            major: be16_value(data[2], data[3]),
                            minor: be16_value(data[4], data[5]),
                            status: be16_value(data[6], data[7]),
                        },
                    )
                } else {
                    Option::None
                }
            } else if tag == MSG_SSL_HANDSHAKE {
                Option::Some(AndroidAutoControlMessage::SslHandshake(arbitrary()))
            } else if tag == MSG_SERVICE_DISCOVERY_REQUEST {
                Option::Some(AndroidAutoControlMessage::ServiceDiscoveryRequest(arbitrary()))
            } else if tag == MSG_PING_REQUEST {
                match spec_parse_varint1(body) {
                    Option::None => Option::None,
                    Option::Some(ts) => Option::Some(
                        AndroidAutoControlMessage::PingRequest(
                            match ts {
                                Option::Some(t) => t,
                                Option::None => 0,
                            },
                        ),
                    ),
                }
            } else if tag == MSG_PING_RESPONSE {
                match spec_parse_varint1(body) {
                    Option::None => Option::None,
                    Option::Some(ts) => Option::Some(
                        AndroidAutoControlMessage::PingResponse(
                            match ts {
                                Option::Some(t) => t,
                                Option::None => 0,
                            },
                        ),
                    ),
                }
            } else if tag == MSG_AUDIO_FOCUS_REQUEST {
                match spec_parse_varint1(body) {
                    Option::None => Option::None,
                    Option::Some(t) => Option::Some(
                        AndroidAutoControlMessage::AudioFocusRequest(
                            match t {
                                Option::Some(v) => Option::Some(v as u32),
                                Option::None => Option::None,
                            },
                        ),
                    ),
                }
            } else if tag == MSG_SHUTDOWN_REQUEST {
                match spec_parse_varint1(body) {
                    Option::None => Option::None,
                    Option::Some(t) => Option::Some(
                        AndroidAutoControlMessage::ShutdownRequest(
                            match t {
                                Option::Some(v) => v as u32,
                                Option::None => 0,
                            },
                        ),
                    ),
                }
            } else {
                Option::None
            }
        }
    }

    /// Decode a control-channel payload. Byte payloads of the decoded
    /// message are pinned here.
    pub fn try_from_payload(data: &Vec<u8>) -> (r: Option<AndroidAutoControlMessage>)
        ensures
            r is Some <==> Self::spec_decode(data@) is Some,
            r matches Some(m) ==> {
                let sm = Self::spec_decode(data@)->Some_0;
                match m {
                    AndroidAutoControlMessage::SslHandshake(b) => sm is SslHandshake && b@
                        == data@.skip(2),
                    AndroidAutoControlMessage::ServiceDiscoveryRequest(b) => sm
                        is ServiceDiscoveryRequest && b@ == data@.skip(2),
                    _ => m == sm,
                }
            },
    {
        let tag = match read_tag(data) {
            Option::None => {
                return Option::None;
            },
            Option::Some(t) => t,
        };
        let n = data.len();
        if tag == MSG_VERSION_RESPONSE {
            if n == 8 {
                let major = (data[2] as u16) * 0x100 + (data[3] as u16);
                let minor = (data[4] as u16) * 0x100 + (data[5] as u16);
                let status = (data[6] as u16) * 0x100 + (data[7] as u16);
                Option::Some(AndroidAutoControlMessage::VersionResponse { major, minor, status })
            } else {
                Option::None
            }
        } else if tag == MSG_SSL_HANDSHAKE {
            Option::Some(AndroidAutoControlMessage::SslHandshake(message_body(data)))
        } else if tag == MSG_SERVICE_DISCOVERY_REQUEST {
            Option::Some(AndroidAutoControlMessage::ServiceDiscoveryRequest(message_body(data)))
        } else if tag == MSG_PING_REQUEST {
            let body = message_body(data);
            match parse_varint1(&body) {
                Option::None => Option::None,
                Option::Some(ts) => Option::Some(
                    AndroidAutoControlMessage::PingRequest(
                        match ts {
                            Option::Some(t) => t,
                            Option::None => 0,
                        },
                    ),
                ),
            }
        } else if tag == MSG_PING_RESPONSE {
            let body = message_body(data);
            match parse_varint1(&body) {
                Option::None => Option::None,
                Option::Some(ts) => Option::Some(
                    AndroidAutoControlMessage::PingResponse(
                        match ts {
                            Option::Some(t) => t,
                            Option::None => 0,
                        },
                    ),
                ),
            }
        } else if tag == MSG_AUDIO_FOCUS_REQUEST {
            let body = message_body(data);
            match parse_varint1(&body) {
                Option::None => Option::None,
                Option::Some(t) => Option::Some(
                    AndroidAutoControlMessage::AudioFocusRequest(
                        match t {
                            Option::Some(v) => Option::Some(v as u32),
                            Option::None => Option::None,
                        },
                    ),
                ),
            }
        } else if tag == MSG_SHUTDOWN_REQUEST {
            let body = message_body(data);
            match parse_varint1(&body) {
                Option::None => Option::None,
                Option::Some(t) => Option::Some(
                    AndroidAutoControlMessage::ShutdownRequest(
                        match t {
                            Option::Some(v) => v as u32,
                            Option::None => 0,
                        },
                    ),
                ),
            }
        } else {
            Option::None
        }
    }
}

/// A timestamp stepped by one, wrapping at the top of its range.
pub open spec fn next_timestamp(ts: u64) -> u64 {
    if ts == 0xFFFFFFFFFFFFFFFF {
        0
    } else {
        (ts + 1) as u64
    }
}

/// The focus state granted for a focus request: a navigation gain is a
/// plain gain, a release is a loss, an absent kind grants nothing, and any
/// other kind is granted as asked.
pub open spec fn audio_focus_reply(t: Option<u32>) -> u32 {
    match t {
        Option::None => AUDIO_FOCUS_STATE_NONE as u32,
        Option::Some(v) => {
            if v == AUDIO_FOCUS_TYPE_GAIN_NAVI {
                AUDIO_FOCUS_STATE_GAIN as u32
            } else if v == AUDIO_FOCUS_TYPE_RELEASE {
                AUDIO_FOCUS_STATE_LOSS as u32
            } else {
                v
            }
        },
    }
}

/// The body of a message whose single field is a varint.
pub open spec fn varint1_body(v: u64) -> Seq<u8> {
    fields_bytes(seq![(1u32, FieldV::VInt(v))])
}

/// The payload of the version request: the tag, then the major and minor
/// version words.
pub open spec fn version_request_payload() -> Seq<u8> {
    message_payload(
        MSG_VERSION_REQUEST,
        crate::bytes::be16_bytes(VERSION_MAJOR) + crate::bytes::be16_bytes(VERSION_MINOR),
    )
}

/// Build the version request frame that opens every session.
pub fn version_request_frame() -> (r: AndroidAutoFrame)
    ensures
        r.header == message_header(0, false),
        r.data@ == version_request_payload(),
        r.wf(),
{
    let mut body: Vec<u8> = Vec::new();
    push_be16(&mut body, VERSION_MAJOR);
    push_be16(&mut body, VERSION_MINOR);
    build_message_frame(0, false, MSG_VERSION_REQUEST, body)
}

/// Build a ping response frame carrying the given timestamp.
pub fn ping_response_frame(ts: u64) -> (r: AndroidAutoFrame)
    ensures
        r.header == message_header(0, true),
        r.data@ == message_payload(MSG_PING_RESPONSE, varint1_body(ts)),
        r.wf(),
{
    let mut body: Vec<u8> = Vec::new();
    push_varint_field(&mut body, 1, ts);
    proof {
        lemma_fields_bytes_one(1, FieldV::VInt(ts));
        lemma_field_bytes_len(1, FieldV::VInt(ts));
        assert(body@ =~= varint1_body(ts));
    }
    build_message_frame(0, true, MSG_PING_RESPONSE, body)
}

/// Build an audio focus response frame granting the given state.
pub fn audio_focus_response_frame(state: u32) -> (r: AndroidAutoFrame)
    ensures
        r.header == message_header(0, true),
        r.data@ == message_payload(MSG_AUDIO_FOCUS_RESPONSE, varint1_body(state as u64)),
        r.wf(),
{
    let mut body: Vec<u8> = Vec::new();
    push_varint_field(&mut body, 1, state as u64);
    proof {
        lemma_fields_bytes_one(1, FieldV::VInt(state as u64));
        lemma_field_bytes_len(1, FieldV::VInt(state as u64));
        assert(body@ =~= varint1_body(state as u64));
    }
    build_message_frame(0, true, MSG_AUDIO_FOCUS_RESPONSE, body)
}

/// Build the authentication-complete frame.
pub fn auth_complete_frame(ok: bool) -> (r: AndroidAutoFrame)
    ensures
        r.header == message_header(0, false),
        r.data@ == message_payload(
            MSG_AUTH_COMPLETE,
            varint1_body(
                if ok {
                    AUTH_STATUS_OK
                } else {
                    AUTH_STATUS_FAIL
                },
            ),
        ),
        r.wf(),
        is_auth_complete_frame(r),
{
    let status: u64 = if ok {
        AUTH_STATUS_OK
    } else {
        AUTH_STATUS_FAIL
    };
    let mut body: Vec<u8> = Vec::new();
    push_varint_field(&mut body, 1, status);
    proof {
        lemma_fields_bytes_one(1, FieldV::VInt(status));
        lemma_field_bytes_len(1, FieldV::VInt(status));
        assert(body@ =~= varint1_body(status));
    }
    let r = build_message_frame(0, false, MSG_AUTH_COMPLETE, body);
    proof {
        lemma_be16_bytes_of_value(r.data@[0], r.data@[1]);
        lemma_tag_of_message_payload(MSG_AUTH_COMPLETE, varint1_body(status));
    }
    r
}

/// Build the shutdown response frame: an empty body.
pub fn shutdown_response_frame() -> (r: AndroidAutoFrame)
    ensures
        r.header == message_header(0, true),
        r.data@ == message_payload(MSG_SHUTDOWN_RESPONSE, Seq::<u8>::empty()),
        r.wf(),
{
    let body: Vec<u8> = Vec::new();
    build_message_frame(0, true, MSG_SHUTDOWN_RESPONSE, body)
}

/// A message payload opens with the tag it was built from.
pub proof fn lemma_tag_of_message_payload(tag: u16, body: Seq<u8>)
    ensures
        message_payload(tag, body).len() >= 2,
        be16_value(message_payload(tag, body)[0], message_payload(tag, body)[1]) == tag,
{
    crate::bytes::lemma_be16_roundtrip(tag);
}

/// Whether a frame is a cleartext control-channel handshake message: the
/// only frame kind the TLS driver hands back to be written.
pub open spec fn is_handshake_flight_frame(f: AndroidAutoFrame) -> bool {
    &&& f.header == message_header(0, false)
    &&& f.data@.len() >= 2
    &&& be16_value(f.data@[0], f.data@[1]) == MSG_SSL_HANDSHAKE
}

/// Whether a single frame announces completed authentication.
pub open spec fn is_auth_complete_frame(f: AndroidAutoFrame) -> bool {
    &&& f.header.frame_type == crate::frame::FrameHeaderType::Single
    &&& f.data@.len() >= 2
    &&& be16_value(f.data@[0], f.data@[1]) == MSG_AUTH_COMPLETE
}

/// How many frames of a sequence announce completed authentication.
pub open spec fn auth_frame_count(frames: Seq<AndroidAutoFrame>) -> int
    decreases frames.len(),
{
    if frames.len() == 0 {
        0
    } else {
        auth_frame_count(frames.drop_last()) + (if is_auth_complete_frame(frames.last()) {
            1int
        } else {
            0int
        })
    }
}

/// Appending a frame adds its own announcement count.
pub proof fn lemma_auth_count_push(frames: Seq<AndroidAutoFrame>, f: AndroidAutoFrame)
    ensures
        auth_frame_count(frames.push(f)) == auth_frame_count(frames) + (
        if is_auth_complete_frame(f) {
            1int
        } else {
            0int
        }),
{
    assert(frames.push(f).drop_last() =~= frames);
    assert(frames.push(f).last() == f);
}

/// A single-frame sequence counts its own announcement.
pub proof fn lemma_auth_count_singleton(s: Seq<AndroidAutoFrame>)
    requires
        s.len() == 1,
    ensures
        auth_frame_count(s) == if is_auth_complete_frame(s[0]) {
            1int
        } else {
            0int
        },
{
    assert(auth_frame_count(s.drop_last()) == 0);
    assert(s.last() == s[0]);
}

/// A sequence without announcements counts none.
pub proof fn lemma_auth_count_zero(frames: Seq<AndroidAutoFrame>)
    requires
        forall|i: int| 0 <= i < frames.len() ==> !is_auth_complete_frame(#[trigger] frames[i]),
    ensures
        auth_frame_count(frames) == 0,
    decreases frames.len(),
{
    if frames.len() > 0 {
        lemma_auth_count_zero(frames.drop_last());
    }
}

/// The descriptor list frozen at session setup, handed to the control
/// handler once the handler table is built.
pub struct InnerChannelHandler {
    /// The descriptors of every advertised sub-channel, in table order.
    pub channels: Vec<ChannelDescriptor>,
}

impl InnerChannelHandler {
    /// An empty descriptor list, to be filled at session setup.
    pub fn new() -> (r: InnerChannelHandler)
        ensures
            r.channels@.len() == 0,
    {
        InnerChannelHandler { channels: Vec::new() }
    }
}

/// The handler of the control channel.
pub struct ControlChannelHandler {
    /// The frozen descriptor list.
    pub inner: InnerChannelHandler,
    /// Where the session stands in its lifecycle.
    pub state: ControlState,
}

impl ControlChannelHandler {
    /// The descriptor list is fit for a discovery response.
    pub open spec fn wf(self) -> bool {
        &&& descriptors_wf(self.inner.channels@)
        &&& self.inner.channels@.len() <= 64
    }

    /// A fresh handler awaiting the version response.
    pub fn new() -> (r: ControlChannelHandler)
        ensures
            r.state == ControlState::AwaitingVersionResponse,
            r.inner.channels@.len() == 0,
            r.wf(),
    {
        ControlChannelHandler {
            inner: InnerChannelHandler::new(),
            state: ControlState::AwaitingVersionResponse,
        }
    }

    /// Freeze the descriptor list collected at session setup.
    pub fn set_channels(&mut self, chans: Vec<ChannelDescriptor>)
        requires
            descriptors_wf(chans@),
            chans@.len() <= 64,
        ensures
            final(self).inner.channels == chans,
            final(self).state == old(self).state,
            final(self).wf(),
    {
        self.inner.channels = chans;
    }

    /// The control channel contributes no descriptor of its own.
    pub fn build_channel(&self) -> (r: Option<ChannelDescriptor>)
        ensures
            r is None,
    {
        Option::None
    }

    /// Process one reassembled control-channel payload: answer keepalive,
    /// audio focus, discovery and shutdown requests, check the version
    /// answer, and drive the tunneled TLS handshake, announcing completed
    /// authentication exactly when the handshake leaves its in-progress
    /// state.
    pub fn receive_data(
        &mut self,
        conn: &mut rustls::client::ClientConnection,
        config: &AndroidAutoConfiguration,
        data: &Vec<u8>,
    ) -> (r: Result<HandlerResponse, FrameIoError>)
        requires
            old(self).wf(),
            head_unit_wf(config.unit),
        ensures
            final(self).wf(),
            final(self).inner.channels == old(self).inner.channels,
            final(self).state.rank() >= old(self).state.rank(),
            final(self).state is Ready ==> old(self).state is Handshaking || old(self).state
                is Ready,
            r is Err ==> final(self).state == old(self).state,
            r matches Ok(h) ==> h.requests@.len() == 0,
            ({
                let emitted: int = match r {
                    Ok(h) => auth_frame_count(h.frames@),
                    Err(_) => 0,
                };
                emitted == if old(self).state is Handshaking && final(self).state is Ready {
                    1int
                } else {
                    0int
                }
            }),
            match AndroidAutoControlMessage::spec_decode(data@) {
                Option::None => r is Err,
                Option::Some(m) => match m {
                    AndroidAutoControlMessage::VersionResponse { major, minor, status } => {
                        &&& (status == VERSION_STATUS_MISMATCH <==> r == Err::<
                            HandlerResponse,
                            FrameIoError,
                        >(FrameIoError::IncompatibleVersion(major, minor)))
                        &&& (status != VERSION_STATUS_MISMATCH && old(self).state
                            is AwaitingVersionResponse && r is Ok ==> final(self).state
                            is Handshaking)
                        &&& (status != VERSION_STATUS_MISMATCH ==> match r {
                            Ok(h) => {
                                &&& !h.shutdown
                                &&& h.frames@.len() <= 1
                                &&& forall|i: int|
                                    0 <= i < h.frames@.len() ==> is_handshake_flight_frame(
                                        #[trigger] h.frames@[i],
                                    )
                            },
                            Err(e) => e is SslHandshake,
                        })
                        &&& (status != VERSION_STATUS_MISMATCH && !(old(self).state
                            is AwaitingVersionResponse) ==> (r matches Ok(h) && h.frames@.len()
                            == 0 && *final(self) == *old(self)))
                    },
                    AndroidAutoControlMessage::PingRequest(ts) => r matches Ok(h) && {
                        &&& h.frames@.len() == 1
                        &&& h.frames@[0].header == message_header(0, true)
                        &&& h.frames@[0].data@ == message_payload(
                            MSG_PING_RESPONSE,
                            varint1_body(next_timestamp(ts)),
                        )
                        &&& !h.shutdown
                        &&& *final(self) == *old(self)
                    },
                    AndroidAutoControlMessage::PingResponse(_) => r matches Ok(h) && h.frames@.len()
                        == 0 && !h.shutdown && *final(self) == *old(self),
                    AndroidAutoControlMessage::AudioFocusRequest(t) => r matches Ok(h) && {
                        &&& h.frames@.len() == 1
                        &&& h.frames@[0].header == message_header(0, true)
                        &&& h.frames@[0].data@ == message_payload(
                            MSG_AUDIO_FOCUS_RESPONSE,
                            varint1_body(audio_focus_reply(t) as u64),
                        )
                        &&& !h.shutdown
                        &&& *final(self) == *old(self)
                    },
                    AndroidAutoControlMessage::ShutdownRequest(reason) => {
                        if reason == SHUTDOWN_REASON_QUIT {
                            r matches Ok(h) && {
                                &&& h.shutdown
                                &&& h.frames@.len() == 1
                                &&& h.frames@[0].data@ == message_payload(
                                    MSG_SHUTDOWN_RESPONSE,
                                    Seq::<u8>::empty(),
                                )
                            }
                        } else {
                            r matches Ok(h) && h.frames@.len() == 0 && !h.shutdown
                        }
                    },
                    AndroidAutoControlMessage::SslHandshake(_) => match r {
                        Ok(h) => {
                            &&& !h.shutdown
                            &&& h.frames@.len() <= 2
                            &&& forall|i: int|
                                0 <= i < h.frames@.len() ==> (is_handshake_flight_frame(
                                    #[trigger] h.frames@[i],
                                ) || is_auth_complete_frame(h.frames@[i]))
                            &&& forall|i: int|
                                0 <= i < h.frames@.len() && is_auth_complete_frame(
                                    #[trigger] h.frames@[i],
                                ) ==> i == h.frames@.len() - 1 && h.frames@[i].header
                                    == message_header(0, false) && h.frames@[i].data@
                                    == message_payload(
                                    MSG_AUTH_COMPLETE,
                                    varint1_body(AUTH_STATUS_OK),
                                )
                        },
                        Err(e) => e is SslHandshake,
                    },
                    AndroidAutoControlMessage::ServiceDiscoveryRequest(_) => r matches Ok(h) && {
                        &&& crate::frame::concat_frame_payloads(h.frames@) == message_payload(
                            MSG_SERVICE_DISCOVERY_RESPONSE,
                            service_discovery_body(config.unit, old(self).inner.channels@),
                        )
                        &&& h.frames@.len() >= 1
                        &&& forall|i: int|
                            0 <= i < h.frames@.len() ==> (#[trigger] h.frames@[i]).header.channel_id
                                == 0 && h.frames@[i].header.encryption
                                && h.frames@[i].header.control
                        &&& !h.shutdown
                        &&& *final(self) == *old(self)
                    },
                    _ => true,
                },
            },
    {
        let msg = match AndroidAutoControlMessage::try_from_payload(data) {
            Option::None => {
                let tag = match read_tag(data) {
                    Option::Some(t) => t,
                    Option::None => 0,
                };
                return Err(FrameIoError::UnknownMessage(0, tag));
            },
            Option::Some(m) => m,
        };
        match msg {
            AndroidAutoControlMessage::VersionResponse { major, minor, status } => {
                if status == VERSION_STATUS_MISMATCH {
                    return Err(FrameIoError::IncompatibleVersion(major, minor));
                }
                let mut resp = HandlerResponse::empty();
                if self.state == ControlState::AwaitingVersionResponse {
                    self.state = ControlState::Handshaking;
                    match crate::tls::start_handshake(conn) {
                        Ok(Option::Some(f)) => {
                            proof {
                                lemma_tag_of_message_payload(
                                    MSG_SSL_HANDSHAKE,
                                    choose|s: Seq<u8>| f.data@ == message_payload(
                                        MSG_SSL_HANDSHAKE,
                                        s,
                                    ),
                                );
                                lemma_auth_count_push(resp.frames@, f);
                            }
                            resp.frames.push(f);
                        },
                        Ok(Option::None) => (),
                        Err(e) => {
                            self.state = ControlState::AwaitingVersionResponse;
                            return Err(FrameIoError::SslHandshake(e));
                        },
                    }
                }
                Ok(resp)
            },
            AndroidAutoControlMessage::SslHandshake(hs) => {
                let mut resp = HandlerResponse::empty();
                match do_handshake(conn, &hs) {
                    Ok(Option::Some(f)) => {
                        proof {
                            lemma_tag_of_message_payload(
                                MSG_SSL_HANDSHAKE,
                                choose|s: Seq<u8>| f.data@ == message_payload(MSG_SSL_HANDSHAKE, s),
                            );
                            lemma_auth_count_push(resp.frames@, f);
                        }
                        resp.frames.push(f);
                    },
                    Ok(Option::None) => (),
                    Err(e) => {
                        return Err(FrameIoError::SslHandshake(e));
                    },
                }
                if self.state == ControlState::Handshaking {
                    if !tls_is_handshaking(conn) {
                        let af = auth_complete_frame(true);
                        proof {
                            lemma_auth_count_push(resp.frames@, af);
                        }
                        resp.frames.push(af);
                        self.state = ControlState::Ready;
                    }
                }
                Ok(resp)
            },
            AndroidAutoControlMessage::PingRequest(ts) => {
                let next: u64 = if ts == 0xFFFFFFFFFFFFFFFF {
                    0
                } else {
                    ts + 1
                };
                let f = ping_response_frame(next);
                let resp = HandlerResponse::with_frame(f);
                proof {
                    lemma_tag_of_message_payload(MSG_PING_RESPONSE, varint1_body(next));
                    lemma_auth_count_singleton(resp.frames@);
                }
                Ok(resp)
            },
            AndroidAutoControlMessage::PingResponse(_) => Ok(HandlerResponse::empty()),
            AndroidAutoControlMessage::AudioFocusRequest(t) => {
                let state: u32 = match t {
                    Option::None => AUDIO_FOCUS_STATE_NONE as u32,
                    Option::Some(v) => {
                        if v as u64 == AUDIO_FOCUS_TYPE_GAIN_NAVI {
                            AUDIO_FOCUS_STATE_GAIN as u32
                        } else if v as u64 == AUDIO_FOCUS_TYPE_RELEASE {
                            AUDIO_FOCUS_STATE_LOSS as u32
                        } else {
                            v
                        }
                    },
                };
                let f = audio_focus_response_frame(state);
                let resp = HandlerResponse::with_frame(f);
                proof {
                    lemma_tag_of_message_payload(
                        MSG_AUDIO_FOCUS_RESPONSE,
                        varint1_body(state as u64),
                    );
                    lemma_auth_count_singleton(resp.frames@);
                }
                Ok(resp)
            },
            AndroidAutoControlMessage::ShutdownRequest(reason) => {
                if reason as u64 == SHUTDOWN_REASON_QUIT {
                    let f = shutdown_response_frame();
                    let mut resp = HandlerResponse::with_frame(f);
                    resp.shutdown = true;
                    proof {
                        lemma_tag_of_message_payload(MSG_SHUTDOWN_RESPONSE, Seq::empty());
                        lemma_auth_count_singleton(resp.frames@);
                    }
                    Ok(resp)
                } else {
                    Ok(HandlerResponse::empty())
                }
            },
            AndroidAutoControlMessage::ServiceDiscoveryRequest(_) => {
                let body = build_service_discovery_body(&config.unit, &self.inner.channels);
                let frames = build_message_frames(0, true, MSG_SERVICE_DISCOVERY_RESPONSE, body);
                proof {
                    let fs = frames@;
                    let payload = message_payload(
                        MSG_SERVICE_DISCOVERY_RESPONSE,
                        service_discovery_body(config.unit, self.inner.channels@),
                    );
                    lemma_tag_of_message_payload(
                        MSG_SERVICE_DISCOVERY_RESPONSE,
                        service_discovery_body(config.unit, self.inner.channels@),
                    );
                    assert forall|i: int| 0 <= i < fs.len() implies !is_auth_complete_frame(
                        #[trigger] fs[i],
                    ) by {
                        if payload.len() <= crate::frame::MAX_FRAME_DATA_SIZE {
                            assert(fs[i].data@ == payload);
                        } else {
                            assert(fs[i].header.frame_type
                                != crate::frame::FrameHeaderType::Single);
                        }
                    }
                    lemma_auth_count_zero(fs);
                }
                Ok(HandlerResponse { frames, requests: Vec::new(), shutdown: false })
            },
            _ => {
                let tag = match read_tag(data) {
                    Option::Some(t) => t,
                    Option::None => 0,
                };
                Err(FrameIoError::UnknownMessage(0, tag))
            },
        }
    }
}

/// Along any run of control states that follows the lifecycle — the rank
/// never falls, and the ready state is entered only from the handshaking
/// state — the authentication announcement, made exactly on the entering
/// step, is made exactly once if the run ends ready and never otherwise.
pub proof fn lemma_auth_complete_once(states: Seq<ControlState>)
    requires
        states.len() >= 1,
        states[0] is AwaitingVersionResponse,
        forall|i: int|
            0 <= i < states.len() - 1 ==> (#[trigger] states[i + 1]).rank() >= states[i].rank(),
        forall|i: int|
            0 <= i < states.len() - 1 ==> ((#[trigger] states[i + 1]) is Ready ==> states[i]
                is Handshaking || states[i] is Ready),
    ensures
        auth_transition_count(states) == if states.last() is Ready {
            1int
        } else {
            0int
        },
    decreases states.len(),
{
    if states.len() == 1 {
    } else {
        let prefix = states.drop_last();
        assert forall|i: int| 0 <= i < prefix.len() - 1 implies (#[trigger] prefix[i + 1]).rank()
            >= prefix[i].rank() && (prefix[i + 1] is Ready ==> prefix[i] is Handshaking || prefix[i]
            is Ready) by {
            assert(states[i + 1].rank() >= states[i].rank());
            assert(states[i + 1] is Ready ==> states[i] is Handshaking || states[i] is Ready);
        }
        lemma_auth_complete_once(prefix);
        let k = states.len() - 2;
        assert(states[k + 1].rank() >= states[k].rank());
        assert(states[k + 1] is Ready ==> states[k] is Handshaking || states[k] is Ready);
    }
}

/// How many steps of a run enter the ready state from the handshaking
/// state, which are exactly the steps that announce authentication.
pub open spec fn auth_transition_count(states: Seq<ControlState>) -> int
    decreases states.len(),
{
    if states.len() <= 1 {
        0
    } else {
        auth_transition_count(states.drop_last()) + (
        if states[states.len() - 2] is Handshaking && states.last() is Ready {
            1int
        } else {
            0int
        })
    }
}

} // verus!
