//! The numeric vocabulary of the protocol: the 16-bit message-type tags
//! that lead every payload, and the enumeration values carried inside
//! protocol-buffer fields, as the public protocol defines them.

use vstd::prelude::*;

verus! {

// Control-channel message types.
pub const MSG_VERSION_REQUEST: u16 = 0x0001;

pub const MSG_VERSION_RESPONSE: u16 = 0x0002;

pub const MSG_SSL_HANDSHAKE: u16 = 0x0003;

pub const MSG_AUTH_COMPLETE: u16 = 0x0004;

pub const MSG_SERVICE_DISCOVERY_REQUEST: u16 = 0x0005;

pub const MSG_SERVICE_DISCOVERY_RESPONSE: u16 = 0x0006;

pub const MSG_CHANNEL_OPEN_REQUEST: u16 = 0x0007;

pub const MSG_CHANNEL_OPEN_RESPONSE: u16 = 0x0008;

pub const MSG_PING_REQUEST: u16 = 0x000B;

pub const MSG_PING_RESPONSE: u16 = 0x000C;

pub const MSG_NAVIGATION_FOCUS_REQUEST: u16 = 0x000D;

pub const MSG_NAVIGATION_FOCUS_RESPONSE: u16 = 0x000E;

pub const MSG_SHUTDOWN_REQUEST: u16 = 0x000F;

pub const MSG_SHUTDOWN_RESPONSE: u16 = 0x0010;

pub const MSG_VOICE_SESSION_REQUEST: u16 = 0x0011;

pub const MSG_AUDIO_FOCUS_REQUEST: u16 = 0x0012;

pub const MSG_AUDIO_FOCUS_RESPONSE: u16 = 0x0013;

// Audio/video channel message types.
pub const MSG_AV_MEDIA_WITH_TIMESTAMP_INDICATION: u16 = 0x0000;

pub const MSG_AV_MEDIA_INDICATION: u16 = 0x0001;

pub const MSG_AV_SETUP_REQUEST: u16 = 0x8000;

pub const MSG_AV_START_INDICATION: u16 = 0x8001;

pub const MSG_AV_STOP_INDICATION: u16 = 0x8002;

pub const MSG_AV_SETUP_RESPONSE: u16 = 0x8003;

pub const MSG_AV_MEDIA_ACK_INDICATION: u16 = 0x8004;

pub const MSG_AV_INPUT_OPEN_REQUEST: u16 = 0x8005;

pub const MSG_AV_INPUT_OPEN_RESPONSE: u16 = 0x8006;

pub const MSG_VIDEO_FOCUS_REQUEST: u16 = 0x8007;

pub const MSG_VIDEO_FOCUS_INDICATION: u16 = 0x8008;

// Input channel message types.
pub const MSG_INPUT_EVENT_INDICATION: u16 = 0x8001;

pub const MSG_BINDING_REQUEST: u16 = 0x8002;

pub const MSG_BINDING_RESPONSE: u16 = 0x8003;

// Sensor channel message types.
pub const MSG_SENSOR_START_REQUEST: u16 = 0x8001;

pub const MSG_SENSOR_START_RESPONSE: u16 = 0x8002;

pub const MSG_SENSOR_EVENT_INDICATION: u16 = 0x8003;

// Bluetooth channel message types.
pub const MSG_PAIRING_REQUEST: u16 = 0x8001;

pub const MSG_PAIRING_RESPONSE: u16 = 0x8002;

pub const MSG_BT_AUTH_DATA: u16 = 0x8003;

// Navigation channel message types.
pub const MSG_NAV_STATUS: u16 = 0x8001;

pub const MSG_NAV_TURN_EVENT: u16 = 0x8002;

pub const MSG_NAV_DISTANCE_EVENT: u16 = 0x8003;

// Media-status channel message types.
pub const MSG_MEDIA_PLAYBACK: u16 = 0x8001;

pub const MSG_MEDIA_METADATA: u16 = 0x8002;

// The protocol version this head unit advertises.
pub const VERSION_MAJOR: u16 = 1;

pub const VERSION_MINOR: u16 = 1;

/// The version-response status that marks an incompatible peer.
pub const VERSION_STATUS_MISMATCH: u16 = 0xFFFF;

// General status values.
pub const STATUS_OK: u64 = 0;

pub const STATUS_FAIL: u64 = 1;

// Audio/video setup status values.
pub const SETUP_STATUS_FAIL: u64 = 1;

pub const SETUP_STATUS_OK: u64 = 2;

// Audio focus request types.
pub const AUDIO_FOCUS_TYPE_NONE: u64 = 0;

pub const AUDIO_FOCUS_TYPE_GAIN: u64 = 1;

pub const AUDIO_FOCUS_TYPE_GAIN_TRANSIENT: u64 = 2;

pub const AUDIO_FOCUS_TYPE_GAIN_NAVI: u64 = 3;

pub const AUDIO_FOCUS_TYPE_RELEASE: u64 = 4;

// Audio focus states granted in responses.
pub const AUDIO_FOCUS_STATE_NONE: u64 = 0;

pub const AUDIO_FOCUS_STATE_GAIN: u64 = 1;

pub const AUDIO_FOCUS_STATE_GAIN_TRANSIENT: u64 = 2;

pub const AUDIO_FOCUS_STATE_LOSS: u64 = 3;

// Video focus modes.
pub const VIDEO_FOCUS_FOCUSED: u64 = 1;

pub const VIDEO_FOCUS_UNFOCUSED: u64 = 2;

// Shutdown reasons.
pub const SHUTDOWN_REASON_QUIT: u64 = 1;

// Authentication completion status.
pub const AUTH_STATUS_OK: u64 = 0;

pub const AUTH_STATUS_FAIL: u64 = 1;

// Bluetooth pairing status.
pub const BT_PAIRING_STATUS_OK: u64 = 0;

// Stream kinds of an audio/video channel.
pub const AVSTREAM_TYPE_AUDIO: u64 = 1;

pub const AVSTREAM_TYPE_VIDEO: u64 = 3;

// Audio stream kinds.
pub const AUDIO_TYPE_SPEECH: u64 = 1;

pub const AUDIO_TYPE_SYSTEM: u64 = 2;

pub const AUDIO_TYPE_MEDIA: u64 = 3;

// Navigation turn rendering kinds.
pub const NAV_TURN_TYPE_IMAGE: u64 = 2;

// Bluetooth pairing methods.
pub const BT_PAIRING_METHOD_HFP: u64 = 1;

} // verus!
