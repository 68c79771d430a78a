//! The in-session bluetooth channel, which answers pairing requests as
//! already paired, and the pre-session rendezvous protocol that hands the
//! device the wireless network to join.

use vstd::prelude::*;
use vstd::string::StrSliceExecFns;

use crate::bytes::{be16_bytes, be16_value, push_be16};
use crate::common::{channel_open_response, AndroidAutoCommonMessage};
use crate::control::{auth_frame_count, lemma_auth_count_singleton, lemma_tag_of_message_payload};
use crate::descriptors::{bluetooth_channel_descriptor, bluetooth_descriptor_bytes, string_bytes,
    string_len_ok, ChannelDescriptor};
use crate::ids::{BT_PAIRING_STATUS_OK, MSG_PAIRING_REQUEST, MSG_PAIRING_RESPONSE};
use crate::message::{build_message_frame, message_header, message_payload, read_tag};
use crate::proto::{field_bytes, lemma_field_bytes_len, push_len_field, push_varint_field, FieldV};
use crate::session::HandlerResponse;
use crate::{BluetoothInformation, ChannelId, FrameIoError, NetworkInformation};

verus! {

/// A message of the in-session bluetooth channel.
#[derive(Debug)]
pub enum BluetoothMessage {
    /// A request to pair; its body is carried along.
    PairingRequest(ChannelId, Vec<u8>),
    /// The head unit's answer to a pairing request.
    PairingResponse(ChannelId, u32),
    /// Authentication data on the bluetooth channel.
    Auth,
}

/// The body of a pairing response: already paired, with a good status.
pub open spec fn pairing_response_body() -> Seq<u8> {
    field_bytes(1, FieldV::VInt(1)) + field_bytes(2, FieldV::VInt(BT_PAIRING_STATUS_OK))
}

/// Build the frame of a pairing response.
pub fn pairing_response_frame(channel: ChannelId) -> (r: crate::frame::AndroidAutoFrame)
    ensures
        r.header == message_header(channel, true),
        r.data@ == message_payload(MSG_PAIRING_RESPONSE, pairing_response_body()),
        r.wf(),
{
    let mut body: Vec<u8> = Vec::new();
    push_varint_field(&mut body, 1, 1);
    push_varint_field(&mut body, 2, BT_PAIRING_STATUS_OK);
    proof {
        lemma_field_bytes_len(1, FieldV::VInt(1));
        lemma_field_bytes_len(2, FieldV::VInt(BT_PAIRING_STATUS_OK));
        assert(body@ =~= pairing_response_body());
    }
    build_message_frame(channel, true, MSG_PAIRING_RESPONSE, body)
}

/// What one step of the bluetooth channel must produce for a payload.
pub open spec fn bluetooth_step_ok(
    channel: ChannelId,
    data: Seq<u8>,
    r: Result<HandlerResponse, FrameIoError>,
) -> bool {
    &&& (r matches Ok(h) ==> auth_frame_count(h.frames@) == 0 && !h.shutdown && h.requests@.len()
        == 0)
    &&& (data.len() >= 2 && be16_value(data[0], data[1]) == MSG_PAIRING_REQUEST ==> (r matches Ok(h)
        && h.frames@.len() == 1 && h.frames@[0].header == message_header(channel, true)
        && h.frames@[0].data@ == message_payload(MSG_PAIRING_RESPONSE, pairing_response_body())))
    &&& (AndroidAutoCommonMessage::payload_is_common(data) ==> (r matches Ok(h) && h.frames@.len()
        == 1 && h.frames@[0].data@ == message_payload(
        crate::ids::MSG_CHANNEL_OPEN_RESPONSE,
        crate::common::open_response_body(crate::ids::STATUS_OK as u32),
    )))
}

/// The handler of the in-session bluetooth channel, holding the adapter
/// identity it advertises.
pub struct BluetoothChannelHandler {
    /// The adapter identity.
    pub info: BluetoothInformation,
}

impl BluetoothChannelHandler {
    /// The descriptor the bluetooth channel contributes.
    pub fn build_channel(&self, chanid: ChannelId) -> (r: Option<ChannelDescriptor>)
        requires
            string_len_ok(self.info.address@),
        ensures
            r matches Some(d) && d.channel_id == chanid && d.bytes@ == bluetooth_descriptor_bytes(
                chanid,
                self.info,
            ) && d.wf(),
    {
        Option::Some(bluetooth_channel_descriptor(chanid, &self.info))
    }

    /// Process one reassembled payload of the bluetooth channel: pairing
    /// requests are answered as already paired; opening succeeds
    /// unconditionally.
    pub fn receive_data(&self, channel: ChannelId, data: &Vec<u8>) -> (r: Result<
        HandlerResponse,
        FrameIoError,
    >)
        ensures
            bluetooth_step_ok(channel, data@, r),
    {
        let tag = match read_tag(data) {
            Option::Some(t) => t,
            Option::None => 0,
        };
        if data.len() >= 2 && tag == MSG_PAIRING_REQUEST {
            let f = pairing_response_frame(channel);
            let resp = HandlerResponse::with_frame(f);
            proof {
                lemma_tag_of_message_payload(MSG_PAIRING_RESPONSE, pairing_response_body());
                lemma_auth_count_singleton(resp.frames@);
            }
            Ok(resp)
        } else {
            match AndroidAutoCommonMessage::try_from_payload(data) {
                Option::Some(AndroidAutoCommonMessage::ChannelOpenRequest(_)) => {
                    Ok(channel_open_response(channel, true))
                },
                _ => Err(FrameIoError::UnknownMessage(channel, tag)),
            }
        }
    }
}

// The pre-session rendezvous: over a bluetooth link, messages are framed
// as a 16-bit big-endian body length, a 16-bit big-endian message type,
// then the body.
/// The rendezvous message asking the device for socket information.
pub const BT_MSG_SOCKET_INFO_REQUEST: u16 = 1;

/// The rendezvous message asking the head unit for network credentials.
pub const BT_MSG_NETWORK_INFO_REQUEST: u16 = 2;

/// The rendezvous message carrying the network credentials.
pub const BT_MSG_NETWORK_INFO_MESSAGE: u16 = 3;

/// The rendezvous answer carrying the device's socket information.
pub const BT_MSG_SOCKET_INFO_RESPONSE: u16 = 7;

/// A rendezvous frame: the body length, the message type, then the body.
pub open spec fn rendezvous_frame_bytes(ty: u16, body: Seq<u8>) -> Seq<u8> {
    be16_bytes(body.len() as u16) + be16_bytes(ty) + body
}

/// The body of the socket-information request the head unit sends first.
pub open spec fn socket_info_request_body(ip: Seq<char>, port: u16) -> Seq<u8> {
    field_bytes(1, FieldV::VBytes(string_bytes(ip))) + field_bytes(2, FieldV::VInt(port as u64))
}

/// The body of the network-information message answering a request.
pub open spec fn network_info_body(n: NetworkInformation) -> Seq<u8> {
    field_bytes(1, FieldV::VBytes(string_bytes(n.ssid@))) + field_bytes(
        2,
        FieldV::VBytes(string_bytes(n.psk@)),
    ) + field_bytes(3, FieldV::VBytes(string_bytes(n.mac_addr@))) + field_bytes(
        4,
        FieldV::VInt(n.security_mode as u64),
    ) + field_bytes(5, FieldV::VInt(n.ap_type as u64))
}

/// The strings of a network record fit their rendezvous fields.
pub open spec fn network_wf(n: NetworkInformation) -> bool {
    &&& string_len_ok(n.ssid@)
    &&& string_len_ok(n.psk@)
    &&& string_len_ok(n.mac_addr@)
    &&& string_len_ok(n.ip@)
}

/// Wrap a rendezvous body into its frame.
fn build_rendezvous_frame(ty: u16, body: Vec<u8>) -> (r: Vec<u8>)
    requires
        body@.len() <= 0xFFFF,
    ensures
        r@ == rendezvous_frame_bytes(ty, body@),
{
    let ghost bv = body@;
    let mut out: Vec<u8> = Vec::new();
    push_be16(&mut out, body.len() as u16);
    push_be16(&mut out, ty);
    let mut b = body;
    out.append(&mut b);
    proof {
        assert(out@ =~= rendezvous_frame_bytes(ty, bv));
    }
    out
}

/// Build the socket-information request that opens the rendezvous.
pub fn socket_info_request(ip: &String, port: u16) -> (r: Vec<u8>)
    requires
        string_len_ok(ip@),
    ensures
        r@ == rendezvous_frame_bytes(BT_MSG_SOCKET_INFO_REQUEST, socket_info_request_body(ip@, port)),
{
    let ipb = ip.as_str().as_bytes_vec();
    let mut body: Vec<u8> = Vec::new();
    push_len_field(&mut body, 1, &ipb);
    push_varint_field(&mut body, 2, port as u64);
    proof {
        lemma_field_bytes_len(1, FieldV::VBytes(ipb@));
        lemma_field_bytes_len(2, FieldV::VInt(port as u64));
        assert(body@ =~= socket_info_request_body(ip@, port));
    }
    build_rendezvous_frame(BT_MSG_SOCKET_INFO_REQUEST, body)
}

/// What one rendezvous message asks the head unit to do next.
pub enum RendezvousStep {
    /// Write these bytes back over the bluetooth link.
    Reply(Vec<u8>),
    /// The exchange is over; close the link.
    Finished,
    /// Nothing to do for this message.
    Ignored,
}

/// Decide the reply to one received rendezvous message: a request for
/// network information is answered with the credentials; a socket
/// information request from the device ends the exchange; everything else
/// carries no obligation.
pub fn rendezvous_step(ty: u16, network: &NetworkInformation) -> (r: RendezvousStep)
    requires
        network_wf(*network),
    ensures
        ty == BT_MSG_NETWORK_INFO_REQUEST <==> (r matches RendezvousStep::Reply(b) && b@
            == rendezvous_frame_bytes(BT_MSG_NETWORK_INFO_MESSAGE, network_info_body(*network))),
        ty == BT_MSG_SOCKET_INFO_REQUEST <==> r is Finished,
        !(ty == BT_MSG_NETWORK_INFO_REQUEST || ty == BT_MSG_SOCKET_INFO_REQUEST) <==> r is Ignored,
    {
    if ty == BT_MSG_NETWORK_INFO_REQUEST {
        let ssid = network.ssid.as_str().as_bytes_vec();
        let psk = network.psk.as_str().as_bytes_vec();
        let mac = network.mac_addr.as_str().as_bytes_vec();
        let mut body: Vec<u8> = Vec::new();
        push_len_field(&mut body, 1, &ssid);
        push_len_field(&mut body, 2, &psk);
        push_len_field(&mut body, 3, &mac);
        push_varint_field(&mut body, 4, network.security_mode as u64);
        push_varint_field(&mut body, 5, network.ap_type as u64);
        proof {
            lemma_field_bytes_len(1, FieldV::VBytes(ssid@));
            lemma_field_bytes_len(2, FieldV::VBytes(psk@));
            lemma_field_bytes_len(3, FieldV::VBytes(mac@));
            lemma_field_bytes_len(4, FieldV::VInt(network.security_mode as u64));
            lemma_field_bytes_len(5, FieldV::VInt(network.ap_type as u64));
            assert(body@ =~= network_info_body(*network));
        }
        RendezvousStep::Reply(build_rendezvous_frame(BT_MSG_NETWORK_INFO_MESSAGE, body))
    } else if ty == BT_MSG_SOCKET_INFO_REQUEST {
        RendezvousStep::Finished
    } else {
        RendezvousStep::Ignored
    }
}

} // verus!
