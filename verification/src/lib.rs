//! A verified core of an Android Auto head-unit protocol engine: the
//! channel-multiplexed framing layer with fragmentation and TLS-tunneled
//! payloads, the message codecs of every sub-channel, and the session state
//! machines that drive version exchange, the in-band TLS handshake, service
//! discovery, and steady-state dispatch.

pub mod audio;
pub mod av;
pub mod avinput;
pub mod bluetooth;
pub mod bytes;
pub mod common;
pub mod control;
pub mod descriptors;
pub mod frame;
pub mod ids;
pub mod input;
pub mod mediaaudio;
pub mod mediastatus;
pub mod message;
pub mod navigation;
pub mod nonspecific;
pub mod proto;
pub mod receiver;
pub mod sensor;
pub mod session;
pub mod speechaudio;
pub mod sysaudio;
pub mod tls;
pub mod video;

use vstd::prelude::*;

use crate::bytes::{be16_bytes, be64_bytes, push_be16, push_be64};
use crate::ids::{MSG_AV_MEDIA_INDICATION, MSG_AV_MEDIA_WITH_TIMESTAMP_INDICATION,
    MSG_INPUT_EVENT_INDICATION, MSG_SENSOR_EVENT_INDICATION};

verus! {

/// The channel identifier of a sub-channel; channel 0 is the control channel.
pub type ChannelId = u8;

/// Errors that can occur when receiving frames.
#[derive(Debug)]
pub enum FrameReceiptError {
    /// A timeout occurred while waiting for frame header bytes.
    TimeoutHeader,
    /// The connection was closed by the peer.
    Disconnected,
    /// An unexpected error while receiving the frame channel byte.
    UnexpectedDuringFrameChannel(std::io::Error),
    /// An unexpected error while receiving the frame flags byte.
    UnexpectedDuringFrameHeader(std::io::Error),
    /// An unexpected error while receiving the frame length area.
    UnexpectedDuringFrameLength(std::io::Error),
    /// An unexpected error while receiving the frame payload.
    UnexpectedDuringFrameContents(std::io::Error),
    /// Feeding received TLS record bytes into the TLS engine failed.
    TlsReadError(std::io::Error),
    /// The TLS engine rejected received record bytes.
    TlsProcessingError(rustls::Error),
}

/// Errors that can occur when transmitting a frame.
#[derive(Debug)]
pub enum FrameTransmissionError {
    /// A timeout occurred while transmitting.
    Timeout,
    /// The connection was closed by the peer.
    Disconnected,
    /// An unexpected I/O error.
    Unexpected(std::io::Error),
    /// A payload too large to be carried even by fragmented frames.
    Oversized,
}

/// A frame arrived out of the order the protocol allows.
#[derive(Debug)]
pub enum FrameSequenceError {
    /// Video data was received while the video channel was not open.
    VideoChannelNotOpen,
    /// An encrypted frame arrived before the handshake completed.
    EncryptedBeforeHandshake,
    /// A frame outside the control channel carried the control flag.
    ControlFlagOnSpecificChannel,
}

/// Errors that can occur while sending or receiving frames.
#[derive(Debug)]
pub enum FrameIoError {
    /// An error receiving a frame.
    Rx(FrameReceiptError),
    /// An error sending a frame.
    Tx(FrameTransmissionError),
    /// The peer asked for a shutdown.
    ShutdownRequested,
    /// The peer advertised an incompatible protocol version.
    IncompatibleVersion(u16, u16),
    /// An error occurred during the TLS handshake.
    SslHandshake(SslHandshakeError),
    /// Frames were not received in the order the protocol allows.
    Sequence(FrameSequenceError),
    /// Opening the audio input device failed.
    AudioInputOpenError,
    /// Closing the audio input device failed.
    AudioInputCloseError,
    /// A frame carried a message type its channel does not know.
    UnknownMessage(ChannelId, u16),
    /// A recognized message carried a body that does not parse.
    InvalidPayload(ChannelId, u16),
}

/// Errors that can occur during the TLS handshake.
#[derive(Debug)]
pub enum SslHandshakeError {
    /// A timeout occurred.
    Timeout,
    /// The connection was closed by the peer.
    Disconnected,
    /// An unexpected I/O error.
    Unexpected(std::io::Error),
    /// The engine produced a handshake flight too large to frame.
    Oversized,
}

/// Errors that can occur during communication with one attached device.
#[derive(Debug)]
pub enum ClientError {
    /// The root certificate for the TLS trust store was invalid.
    InvalidRootCert,
    /// The client certificate was invalid.
    InvalidClientCertificate,
    /// The client private key was invalid.
    InvalidClientPrivateKey,
    /// A communication error.
    IoError(FrameIoError),
}

impl From<FrameTransmissionError> for FrameIoError {
    fn from(value: FrameTransmissionError) -> (r: Self) {
        FrameIoError::Tx(value)
    }
}

impl vstd::std_specs::convert::FromSpecImpl<FrameTransmissionError> for FrameIoError {
    open spec fn obeys_from_spec() -> bool {
        true
    }

    open spec fn from_spec(value: FrameTransmissionError) -> Self {
        FrameIoError::Tx(value)
    }
}

impl From<SslHandshakeError> for FrameIoError {
    fn from(value: SslHandshakeError) -> (r: Self) {
        FrameIoError::SslHandshake(value)
    }
}

impl vstd::std_specs::convert::FromSpecImpl<SslHandshakeError> for FrameIoError {
    open spec fn obeys_from_spec() -> bool {
        true
    }

    open spec fn from_spec(value: SslHandshakeError) -> Self {
        FrameIoError::SslHandshake(value)
    }
}

impl From<FrameSequenceError> for FrameIoError {
    fn from(value: FrameSequenceError) -> (r: Self) {
        FrameIoError::Sequence(value)
    }
}

impl vstd::std_specs::convert::FromSpecImpl<FrameSequenceError> for FrameIoError {
    open spec fn obeys_from_spec() -> bool {
        true
    }

    open spec fn from_spec(value: FrameSequenceError) -> Self {
        FrameIoError::Sequence(value)
    }
}

impl From<FrameIoError> for ClientError {
    fn from(value: FrameIoError) -> (r: Self) {
        ClientError::IoError(value)
    }
}

impl vstd::std_specs::convert::FromSpecImpl<FrameIoError> for ClientError {
    open spec fn obeys_from_spec() -> bool {
        true
    }

    open spec fn from_spec(value: FrameIoError) -> Self {
        ClientError::IoError(value)
    }
}

/// The kinds of audio output channels.
#[derive(Clone, Copy, Debug, PartialEq, Eq, Structural)]
pub enum AudioChannelType {
    /// Media audio.
    Media,
    /// System audio.
    System,
    /// Speech audio.
    Speech,
}

/// The configuration of the input channel.
#[derive(Clone)]
pub struct InputConfiguration {
    /// The supported key codes.
    pub keycodes: Vec<u32>,
    /// The touchscreen width and height, when a touchscreen is present.
    pub touchscreen: Option<(u16, u16)>,
}

/// The sensor types the head unit can report.
#[derive(Clone)]
pub struct SensorInformation {
    /// The supported sensor types.
    pub sensors: Vec<u32>,
}

/// The wireless network the head unit tells the device to join.
#[derive(Clone, Debug)]
pub struct NetworkInformation {
    /// The network name.
    pub ssid: String,
    /// The network passphrase.
    pub psk: String,
    /// The access point's hardware address.
    pub mac_addr: String,
    /// The address the head unit listens on.
    pub ip: String,
    /// The port the head unit listens on.
    pub port: u16,
    /// The network's security mode.
    pub security_mode: u32,
    /// The kind of access point.
    pub ap_type: u32,
}

/// Information about the head unit, sent during service discovery.
#[derive(Clone)]
pub struct HeadUnitInfo {
    /// The name of the head unit.
    pub name: String,
    /// The model of the vehicle.
    pub car_model: String,
    /// The year of the vehicle.
    pub car_year: String,
    /// The serial number of the vehicle.
    pub car_serial: String,
    /// True for a left-hand-drive vehicle.
    pub left_hand: bool,
    /// The manufacturer of the head unit.
    pub head_manufacturer: String,
    /// The model of the head unit.
    pub head_model: String,
    /// The software build of the head unit.
    pub sw_build: String,
    /// The software version of the head unit.
    pub sw_version: String,
    /// Whether native media can play during voice sessions.
    pub native_media: bool,
    /// Whether the device should hide its clock.
    pub hide_clock: Option<bool>,
}

/// The bluetooth identity of the head unit.
#[derive(Clone)]
pub struct BluetoothInformation {
    /// The hardware address of the bluetooth adapter.
    pub address: String,
}

/// The desired shape of the video stream.
#[derive(Clone)]
pub struct VideoConfiguration {
    /// The desired resolution.
    pub resolution: u32,
    /// The desired frame rate.
    pub fps: u32,
    /// The dots per inch of the display.
    pub dpi: u16,
}

/// The configuration of the head unit.
#[derive(Clone)]
pub struct AndroidAutoConfiguration {
    /// The head unit information.
    pub unit: HeadUnitInfo,
    /// A custom client certificate and private key in PEM form, if desired.
    pub custom_certificate: Option<(Vec<u8>, Vec<u8>)>,
}

/// The sub-channel kinds to which the head unit can push messages of its own.
#[derive(Clone, Copy, Debug, PartialEq, Eq, Structural)]
pub enum SendableChannelType {
    /// The input channel.
    Input,
    /// The audio input channel.
    AudioInput,
    /// The sensor channel.
    Sensor,
    /// Another channel kind.
    Other,
}

/// A message ready to be carried to the device: the channel kind it belongs
/// on and the full payload, tag bytes included.
#[derive(Clone, Debug)]
pub struct SendableAndroidAutoMessage {
    /// The channel kind this message belongs on.
    pub channel: SendableChannelType,
    /// The payload to send.
    pub data: Vec<u8>,
}

/// A message sent from the application into the engine.
#[derive(Clone, Debug)]
pub enum AndroidAutoChannelMessageFromApp {
    /// A message to forward to the device.
    MessageToPhone(SendableAndroidAutoMessage),
}

/// A message the head unit pushes to the device. Bodies are already encoded
/// in their protocol-buffer form.
pub enum AndroidAutoMessage {
    /// An input event body.
    Input(Vec<u8>),
    /// An audio packet: an optional timestamp in microseconds, and samples.
    Audio(Option<u64>, Vec<u8>),
    /// A sensor event body.
    Sensor(Vec<u8>),
    /// Another message kind.
    Other,
}

impl AndroidAutoMessage {
    /// Whether the message can be carried to the device.
    pub open spec fn is_sendable(self) -> bool {
        !(self is Other)
    }

    /// The payload a message is carried as: its channel's tag and the body,
    /// with the timestamp of a timestamped audio packet leading the samples.
    pub open spec fn sendable_payload(self) -> Seq<u8> {
        match self {
            AndroidAutoMessage::Input(body) => be16_bytes(MSG_INPUT_EVENT_INDICATION) + body@,
            AndroidAutoMessage::Sensor(body) => be16_bytes(MSG_SENSOR_EVENT_INDICATION) + body@,
            AndroidAutoMessage::Audio(Some(ts), body) => be16_bytes(
                MSG_AV_MEDIA_WITH_TIMESTAMP_INDICATION,
            ) + be64_bytes(ts) + body@,
            AndroidAutoMessage::Audio(None, body) => be16_bytes(MSG_AV_MEDIA_INDICATION) + body@,
            AndroidAutoMessage::Other => Seq::empty(),
        }
    }

    /// The channel kind a message is carried on.
    pub open spec fn sendable_channel(self) -> SendableChannelType {
        match self {
            AndroidAutoMessage::Input(_) => SendableChannelType::Input,
            AndroidAutoMessage::Sensor(_) => SendableChannelType::Sensor,
            AndroidAutoMessage::Audio(_, _) => SendableChannelType::AudioInput,
            AndroidAutoMessage::Other => SendableChannelType::Other,
        }
    }

    /// Convert the message to its sendable form.
    pub fn sendable(self) -> (r: SendableAndroidAutoMessage)
        requires
            self.is_sendable(),
        ensures
            r.channel == self.sendable_channel(),
            r.data@ == self.sendable_payload(),
    {
        match self {
            AndroidAutoMessage::Sensor(body) => {
                let mut m: Vec<u8> = Vec::new();
                push_be16(&mut m, MSG_SENSOR_EVENT_INDICATION);
                let mut b = body;
                m.append(&mut b);
                SendableAndroidAutoMessage { channel: SendableChannelType::Sensor, data: m }
            },
            AndroidAutoMessage::Input(body) => {
                let mut m: Vec<u8> = Vec::new();
                push_be16(&mut m, MSG_INPUT_EVENT_INDICATION);
                let mut b = body;
                m.append(&mut b);
                SendableAndroidAutoMessage { channel: SendableChannelType::Input, data: m }
            },
            AndroidAutoMessage::Audio(timestamp, body) => {
                let mut m: Vec<u8> = Vec::new();
                match timestamp {
                    Option::Some(ts) => {
                        push_be16(&mut m, MSG_AV_MEDIA_WITH_TIMESTAMP_INDICATION);
                        push_be64(&mut m, ts);
                    },
                    Option::None => {
                        push_be16(&mut m, MSG_AV_MEDIA_INDICATION);
                    },
                }
                let mut b = body;
                m.append(&mut b);
                SendableAndroidAutoMessage { channel: SendableChannelType::AudioInput, data: m }
            },
            AndroidAutoMessage::Other => {
                proof {
                    assert(false);
                }
                SendableAndroidAutoMessage {
                    channel: SendableChannelType::Other,
                    data: Vec::new(),
                }
            },
        }
    }
}

} // verus!
