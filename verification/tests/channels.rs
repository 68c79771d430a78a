//! Tests of the channel handlers and the session driver: the control state
//! machine, service discovery, the audio focus mapping, the video session
//! bookkeeping, and dispatch ordering rules.

use std::sync::Arc;

use android_auto::audio::audio_receive_data;
use android_auto::av::AvChannelMessage;
use android_auto::bluetooth::{rendezvous_step, socket_info_request, BluetoothChannelHandler,
    RendezvousStep, BT_MSG_NETWORK_INFO_REQUEST, BT_MSG_SOCKET_INFO_REQUEST};
use android_auto::control::{version_request_frame, AndroidAutoControlMessage,
    ControlChannelHandler, ControlState};
use android_auto::descriptors::build_service_discovery_body;
use android_auto::frame::{AndroidAutoFrame, FrameHeader, FrameHeaderType};
use android_auto::input::InputChannelHandler;
use android_auto::avinput::AvInputChannelHandler;
use android_auto::mediastatus::MediaStatusChannelHandler;
use android_auto::navigation::NavigationChannelHandler;
use android_auto::nonspecific::AndroidAutoNonspecificMessage;
use android_auto::sensor::SensorChannelHandler;
use android_auto::session::{AndroidAutoSession, IntegrationCapabilities, IntegrationRequest};
use android_auto::SendableAndroidAutoMessage;
use android_auto::video::VideoChannelHandler;
use android_auto::{AndroidAutoConfiguration, AndroidAutoMessage, AudioChannelType,
    BluetoothInformation, FrameIoError, FrameSequenceError, HeadUnitInfo, InputConfiguration,
    NetworkInformation, SendableChannelType, SensorInformation, VideoConfiguration};

fn test_conn() -> rustls::client::ClientConnection {
    let provider = Arc::new(rustls::crypto::ring::default_provider());
    let roots = rustls::RootCertStore::empty();
    let config = rustls::ClientConfig::builder_with_provider(provider)
        .with_safe_default_protocol_versions()
        .unwrap()
        .with_root_certificates(Arc::new(roots))
        .with_no_client_auth();
    rustls::client::ClientConnection::new(Arc::new(config), "localhost".try_into().unwrap())
        .unwrap()
}

fn head_unit() -> HeadUnitInfo {
    HeadUnitInfo {
        name: "unit".to_string(),
        car_model: "model".to_string(),
        car_year: "2024".to_string(),
        car_serial: "serial".to_string(),
        left_hand: true,
        head_manufacturer: "maker".to_string(),
        head_model: "head".to_string(),
        sw_build: "build".to_string(),
        sw_version: "version".to_string(),
        native_media: false,
        hide_clock: None,
    }
}

fn config() -> AndroidAutoConfiguration {
    AndroidAutoConfiguration { unit: head_unit(), custom_certificate: None }
}

#[test]
fn version_request_opens_cleartext() {
    let f = version_request_frame();
    assert_eq!(f.header.channel_id, 0);
    assert!(f.header.control);
    assert!(!f.header.encryption);
    assert_eq!(f.data, vec![0x00, 0x01, 0x00, 0x01, 0x00, 0x01]);
}

#[test]
fn version_mismatch_ends_session() {
    let mut control = ControlChannelHandler::new();
    let mut conn = test_conn();
    let payload = vec![0x00, 0x02, 0x00, 0x01, 0x00, 0x00, 0xFF, 0xFF];
    let r = control.receive_data(&mut conn, &config(), &payload);
    assert!(matches!(r, Err(FrameIoError::IncompatibleVersion(1, 0))));
    assert_eq!(control.state, ControlState::AwaitingVersionResponse);
}

#[test]
fn version_match_starts_handshake() {
    let mut control = ControlChannelHandler::new();
    let mut conn = test_conn();
    let payload = vec![0x00, 0x02, 0x00, 0x01, 0x00, 0x06, 0x00, 0x00];
    let r = control.receive_data(&mut conn, &config(), &payload).expect("version accepted");
    assert_eq!(control.state, ControlState::Handshaking);
    // The TLS engine wants to send its first flight, wrapped in a
    // cleartext handshake message on the control channel.
    assert_eq!(r.frames.len(), 1);
    let hs = &r.frames[0];
    assert_eq!(hs.header.channel_id, 0);
    assert!(!hs.header.encryption);
    assert_eq!(&hs.data[..2], &[0x00, 0x03]);
    assert!(hs.data.len() > 2);
}

#[test]
fn ping_echo_increments_timestamp() {
    let mut control = ControlChannelHandler::new();
    let mut conn = test_conn();
    let payload = vec![0x00, 0x0B, 0x08, 42];
    let r = control.receive_data(&mut conn, &config(), &payload).expect("ping handled");
    assert_eq!(r.frames.len(), 1);
    let f = &r.frames[0];
    assert_eq!(f.header.channel_id, 0);
    assert!(f.header.encryption);
    assert_eq!(f.data, vec![0x00, 0x0C, 0x08, 43]);
}

#[test]
fn unsolicited_ping_response_is_ignored() {
    let mut control = ControlChannelHandler::new();
    let mut conn = test_conn();
    let payload = vec![0x00, 0x0C, 0x08, 99];
    let r = control.receive_data(&mut conn, &config(), &payload).expect("tolerated");
    assert!(r.frames.is_empty());
    assert!(r.requests.is_empty());
    assert!(!r.shutdown);
}

#[test]
fn audio_focus_mapping() {
    let cases = [
        (3u8, 1u8),  // a navigation gain is granted as a plain gain
        (4u8, 3u8),  // a release is granted as a loss
        (0u8, 0u8),  // no focus asked, none granted
        (1u8, 1u8),  // a plain gain is granted as asked
        (2u8, 2u8),  // a transient gain is granted as asked
    ];
    for (ty, state) in cases {
        let mut control = ControlChannelHandler::new();
        let mut conn = test_conn();
        let payload = vec![0x00, 0x12, 0x08, ty];
        let r = control.receive_data(&mut conn, &config(), &payload).expect("focus handled");
        assert_eq!(r.frames.len(), 1);
        assert_eq!(r.frames[0].data, vec![0x00, 0x13, 0x08, state]);
    }
}

#[test]
fn shutdown_quit_answers_then_ends() {
    let mut control = ControlChannelHandler::new();
    let mut conn = test_conn();
    let payload = vec![0x00, 0x0F, 0x08, 1];
    let r = control.receive_data(&mut conn, &config(), &payload).expect("shutdown handled");
    assert!(r.shutdown);
    assert_eq!(r.frames.len(), 1);
    assert_eq!(r.frames[0].data, vec![0x00, 0x10]);
}

#[test]
fn service_discovery_lists_frozen_descriptors() {
    let mut control = ControlChannelHandler::new();
    let mut conn = test_conn();
    let sensors = SensorChannelHandler { info: SensorInformation { sensors: vec![10, 11] } };
    let d = sensors.build_channel(1).unwrap();
    let expected_chans = vec![d.clone()];
    control.set_channels(vec![d]);
    let payload = vec![0x00, 0x05];
    let r = control.receive_data(&mut conn, &config(), &payload).expect("discovery handled");
    assert_eq!(r.frames.len(), 1);
    let f = &r.frames[0];
    assert_eq!(&f.data[..2], &[0x00, 0x06]);
    let body = build_service_discovery_body(&head_unit(), &expected_chans);
    assert_eq!(&f.data[2..], &body[..]);
    // The descriptor rides first, as nested field 1.
    assert_eq!(f.data[2], 0x0A);
}

#[test]
fn unknown_control_tag_is_an_error() {
    let mut control = ControlChannelHandler::new();
    let mut conn = test_conn();
    let payload = vec![0x7F, 0x7F, 0x01];
    let r = control.receive_data(&mut conn, &config(), &payload);
    assert!(matches!(r, Err(FrameIoError::UnknownMessage(0, 0x7F7F))));
}

#[test]
fn video_session_acks_carry_recorded_session() {
    let mut video = VideoChannelHandler::new();
    // Start indication with session 7.
    let start = vec![0x80, 0x01, 0x08, 7];
    let r = video.receive_data(3, &start).expect("start recorded");
    assert!(r.frames.is_empty());
    // Three timestamped media payloads are delivered and acknowledged, in
    // order, each under session 7.
    for ts in [100u8, 200, 255] {
        let mut payload = vec![0x00, 0x00, 0, 0, 0, 0, 0, 0, 0, ts];
        payload.extend_from_slice(&[0xEE, 0xDD]);
        let r = video.receive_data(3, &payload).expect("media handled");
        assert_eq!(r.frames.len(), 1);
        assert_eq!(r.frames[0].data, vec![0x80, 0x04, 0x08, 7, 0x10, 1]);
        assert_eq!(r.requests.len(), 1);
        assert!(matches!(&r.requests[0],
            IntegrationRequest::ReceiveVideo(body, Some(_)) if body == &vec![0xEE, 0xDD]));
    }
}

#[test]
fn video_media_without_session_fails() {
    let mut video = VideoChannelHandler::new();
    let payload = vec![0x00, 0x01, 0xEE];
    let r = video.receive_data(3, &payload);
    assert!(matches!(
        r,
        Err(FrameIoError::Sequence(FrameSequenceError::VideoChannelNotOpen))
    ));
}

#[test]
fn video_setup_waits_for_focus() {
    let mut video = VideoChannelHandler::new();
    let payload = vec![0x80, 0x00];
    let r = video.receive_data(3, &payload).expect("setup handled");
    assert_eq!(r.frames.len(), 1);
    // Status OK (2), one unacknowledged frame allowed, configuration 0.
    assert_eq!(r.frames[0].data, vec![0x80, 0x03, 0x08, 2, 0x10, 1, 0x18, 0]);
    assert!(matches!(r.requests[0], IntegrationRequest::WaitForVideoFocus));
    let focused = video.focus_ready(3);
    assert_eq!(focused.frames[0].data, vec![0x80, 0x08, 0x08, 1, 0x10, 0]);
}

#[test]
fn video_focus_request_is_echoed() {
    let mut video = VideoChannelHandler::new();
    let payload = vec![0x80, 0x07, 0x10, 2];
    let r = video.receive_data(3, &payload).expect("focus handled");
    assert_eq!(r.frames[0].data, vec![0x80, 0x08, 0x08, 2, 0x10, 0]);
    assert!(matches!(r.requests[0], IntegrationRequest::SetVideoFocus(false)));
}

#[test]
fn video_open_result_answers() {
    let video = VideoChannelHandler::new();
    let ok = video.open_result(3, true);
    assert_eq!(ok.frames[0].data, vec![0x00, 0x08, 0x08, 0]);
    let bad = video.open_result(3, false);
    assert_eq!(bad.frames[0].data, vec![0x00, 0x08, 0x08, 1]);
}

#[test]
fn audio_open_goes_to_integration() {
    let payload = vec![0x00, 0x07];
    let r = audio_receive_data(AudioChannelType::Speech, 4, &payload).expect("open handled");
    assert!(r.frames.is_empty());
    assert!(matches!(
        r.requests[0],
        IntegrationRequest::OpenAudioChannel(AudioChannelType::Speech)
    ));
}

#[test]
fn audio_media_and_lifecycle() {
    let media = vec![0x00, 0x01, 0xAB, 0xCD];
    let r = audio_receive_data(AudioChannelType::Media, 4, &media).expect("media handled");
    assert!(matches!(&r.requests[0],
        IntegrationRequest::ReceiveAudio(AudioChannelType::Media, body) if body == &vec![0xAB, 0xCD]));
    let start = vec![0x80, 0x01, 0x08, 1];
    let r = audio_receive_data(AudioChannelType::Media, 4, &start).expect("start handled");
    assert!(matches!(r.requests[0], IntegrationRequest::StartAudio(AudioChannelType::Media)));
    let stop = vec![0x80, 0x02];
    let r = audio_receive_data(AudioChannelType::Media, 4, &stop).expect("stop handled");
    assert!(matches!(r.requests[0], IntegrationRequest::StopAudio(AudioChannelType::Media)));
}

#[test]
fn avinput_open_and_results() {
    let h = AvInputChannelHandler {};
    let open = vec![0x80, 0x05, 0x08, 1];
    let r = h.receive_data(6, &open).expect("open handled");
    assert!(matches!(r.requests[0], IntegrationRequest::OpenAudioInput));
    let close = vec![0x80, 0x05, 0x08, 0];
    let r = h.receive_data(6, &close).expect("close handled");
    assert!(matches!(r.requests[0], IntegrationRequest::CloseAudioInput));
    assert!(h.open_result(true).is_ok());
    assert!(matches!(h.open_result(false), Err(FrameIoError::AudioInputOpenError)));
    assert!(matches!(h.close_result(false), Err(FrameIoError::AudioInputCloseError)));
}

#[test]
fn binding_checks_declared_codes() {
    let h = InputChannelHandler {
        config: InputConfiguration { keycodes: vec![1, 2, 3], touchscreen: Some((800, 480)) },
    };
    // All codes declared: the binding goes to the integration.
    let req = vec![0x80, 0x02, 0x08, 1, 0x08, 3];
    let r = h.receive_data(1, &req).expect("binding handled");
    assert!(r.frames.is_empty());
    assert!(matches!(&r.requests[0],
        IntegrationRequest::BindInputCodes(codes) if codes == &vec![1u32, 3]));
    let done = h.binding_result(1, true);
    assert_eq!(done.frames[0].data, vec![0x80, 0x03, 0x08, 0]);
    // An undeclared code is refused without consulting the integration.
    let bad = vec![0x80, 0x02, 0x08, 1, 0x08, 9];
    let r = h.receive_data(1, &bad).expect("binding refused");
    assert!(r.requests.is_empty());
    assert_eq!(r.frames[0].data, vec![0x80, 0x03, 0x08, 1]);
}

#[test]
fn sensor_start_round_trip() {
    let h = SensorChannelHandler { info: SensorInformation { sensors: vec![5] } };
    let req = vec![0x80, 0x01, 0x08, 5];
    let r = h.receive_data(2, &req).expect("start handled");
    assert!(matches!(r.requests[0], IntegrationRequest::StartSensor(5)));
    let ok = h.start_result(2, true);
    assert_eq!(ok.frames[0].data, vec![0x80, 0x02, 0x08, 0]);
    let bad = h.start_result(2, false);
    assert_eq!(bad.frames[0].data, vec![0x80, 0x02, 0x08, 1]);
}

#[test]
fn pairing_is_answered_as_already_paired() {
    let h = BluetoothChannelHandler { info: BluetoothInformation { address: "AA:BB".to_string() } };
    let req = vec![0x80, 0x01];
    let r = h.receive_data(7, &req).expect("pairing handled");
    assert_eq!(r.frames[0].data, vec![0x80, 0x02, 0x08, 1, 0x10, 0]);
}

#[test]
fn channel_open_is_answered_ok() {
    let h = BluetoothChannelHandler { info: BluetoothInformation { address: "AA:BB".to_string() } };
    let req = vec![0x00, 0x07, 0x08, 7];
    let r = h.receive_data(7, &req).expect("open handled");
    assert_eq!(r.frames[0].data, vec![0x00, 0x08, 0x08, 0]);
}

#[test]
fn rendezvous_answers_network_request() {
    let network = NetworkInformation {
        ssid: "net".to_string(),
        psk: "secret".to_string(),
        mac_addr: "AA:BB:CC".to_string(),
        ip: "10.0.0.1".to_string(),
        port: 5277,
        security_mode: 8,
        ap_type: 1,
    };
    let hello = socket_info_request(&network.ip, network.port);
    // Length, type, then the two fields of the body.
    assert_eq!(&hello[2..4], &[0x00, 0x01]);
    assert_eq!(u16::from_be_bytes([hello[0], hello[1]]) as usize, hello.len() - 4);
    match rendezvous_step(BT_MSG_NETWORK_INFO_REQUEST, &network) {
        RendezvousStep::Reply(bytes) => {
            assert_eq!(&bytes[2..4], &[0x00, 0x03]);
            assert_eq!(u16::from_be_bytes([bytes[0], bytes[1]]) as usize, bytes.len() - 4);
        },
        _ => panic!("expected a reply"),
    }
    assert!(matches!(
        rendezvous_step(BT_MSG_SOCKET_INFO_REQUEST, &network),
        RendezvousStep::Finished
    ));
    assert!(matches!(rendezvous_step(7, &network), RendezvousStep::Ignored));
}

fn full_caps() -> IntegrationCapabilities {
    IntegrationCapabilities {
        input: Some(InputConfiguration { keycodes: vec![1], touchscreen: None }),
        sensors: Some(SensorInformation { sensors: vec![10] }),
        video: Some(VideoConfiguration { resolution: 1, fps: 2, dpi: 140 }),
        audio_output: true,
        audio_input: true,
        bluetooth: Some(BluetoothInformation { address: "AA".to_string() }),
        navigation: true,
    }
}

#[test]
fn session_assigns_channel_ids_in_declaration_order() {
    let s = AndroidAutoSession::new(full_caps());
    // Input, sensor, video, three audio outputs, microphone, bluetooth,
    // navigation, media status.
    assert_eq!(s.handlers.len(), 10);
    assert_eq!(s.control.inner.channels.len(), 10);
    for (j, d) in s.control.inner.channels.iter().enumerate() {
        assert_eq!(d.channel_id as usize, j + 1);
    }
    assert_eq!(s.channel_for(SendableChannelType::Input), Some(1));
    assert_eq!(s.channel_for(SendableChannelType::Sensor), Some(2));
    assert_eq!(s.channel_for(SendableChannelType::AudioInput), Some(7));
}

#[test]
fn dispatch_refuses_misplaced_control_flag() {
    let mut s = AndroidAutoSession::new(full_caps());
    let mut conn = test_conn();
    let f = AndroidAutoFrame {
        header: FrameHeader {
            channel_id: 2,
            frame_type: FrameHeaderType::Single,
            control: true,
            encryption: false,
        },
        data: vec![0x00, 0x07],
        first_total: None,
    };
    let r = s.dispatch(&mut conn, &config(), &f);
    assert!(matches!(
        r,
        Err(FrameIoError::Sequence(FrameSequenceError::ControlFlagOnSpecificChannel))
    ));
}

#[test]
fn dispatch_refuses_encryption_before_handshake() {
    let mut s = AndroidAutoSession::new(full_caps());
    let mut conn = test_conn();
    let f = AndroidAutoFrame {
        header: FrameHeader {
            channel_id: 2,
            frame_type: FrameHeaderType::Single,
            control: false,
            encryption: true,
        },
        data: vec![0x00, 0x07],
        first_total: None,
    };
    let r = s.dispatch(&mut conn, &config(), &f);
    assert!(matches!(
        r,
        Err(FrameIoError::Sequence(FrameSequenceError::EncryptedBeforeHandshake))
    ));
}

#[test]
fn dispatch_routes_to_channel_handler() {
    let mut s = AndroidAutoSession::new(full_caps());
    let mut conn = test_conn();
    // A sensor start request on channel 2 reaches the sensor handler.
    let f = AndroidAutoFrame {
        header: FrameHeader {
            channel_id: 2,
            frame_type: FrameHeaderType::Single,
            control: false,
            encryption: false,
        },
        data: vec![0x80, 0x01, 0x08, 10],
        first_total: None,
    };
    let r = s.dispatch(&mut conn, &config(), &f).expect("routed");
    assert!(matches!(r.requests[0], IntegrationRequest::StartSensor(10)));
}

#[test]
fn sendable_message_finds_its_channel() {
    let s = AndroidAutoSession::new(full_caps());
    let m = AndroidAutoMessage::Sensor(vec![0x0A, 0x00]).sendable();
    assert_eq!(m.channel, SendableChannelType::Sensor);
    assert_eq!(m.data, vec![0x80, 0x03, 0x0A, 0x00]);
    let f = m.into_frame(&s).expect("channel found");
    assert_eq!(f.header.channel_id, 2);
    assert!(f.header.encryption);
    assert_eq!(f.data, vec![0x80, 0x03, 0x0A, 0x00]);
}

#[test]
fn timestamped_audio_payload_leads_with_timestamp() {
    let m = AndroidAutoMessage::Audio(Some(0x0102), vec![0x55]).sendable();
    assert_eq!(m.channel, SendableChannelType::AudioInput);
    assert_eq!(m.data, vec![0x00, 0x00, 0, 0, 0, 0, 0, 0, 0x01, 0x02, 0x55]);
}

#[test]
fn decoded_av_messages_match_their_tags() {
    let start = vec![0x80, 0x01, 0x08, 9];
    match AvChannelMessage::try_from_payload(5, &start) {
        Some(AvChannelMessage::StartIndication(5, si)) => {
            assert_eq!(si.session, 9);
        },
        _ => panic!("expected a start indication"),
    }
    let unknown = vec![0x7A, 0x7A];
    assert!(AvChannelMessage::try_from_payload(5, &unknown).is_none());
}

#[test]
fn decoded_control_messages_match_their_tags() {
    let ping = vec![0x00, 0x0B, 0x08, 5];
    match AndroidAutoControlMessage::try_from_payload(&ping) {
        Some(AndroidAutoControlMessage::PingRequest(5)) => (),
        _ => panic!("expected a ping request"),
    }
    let handshake = vec![0x00, 0x03, 0xAA, 0xBB];
    match AndroidAutoControlMessage::try_from_payload(&handshake) {
        Some(AndroidAutoControlMessage::SslHandshake(b)) => assert_eq!(b, vec![0xAA, 0xBB]),
        _ => panic!("expected handshake bytes"),
    }
}

#[test]
fn ping_timestamp_wraps_at_the_top() {
    let mut control = ControlChannelHandler::new();
    let mut conn = test_conn();
    let mut payload = vec![0x00, 0x0B, 0x08];
    payload.extend_from_slice(&[0xFF, 0xFF, 0xFF, 0xFF, 0xFF, 0xFF, 0xFF, 0xFF, 0xFF, 0x01]);
    let r = control.receive_data(&mut conn, &config(), &payload).expect("ping handled");
    assert_eq!(r.frames[0].data, vec![0x00, 0x0C, 0x08, 0]);
}

#[test]
fn malformed_binding_body_is_refused() {
    let h = InputChannelHandler {
        config: InputConfiguration { keycodes: vec![1], touchscreen: None },
    };
    // The body ends inside a varint.
    let req = vec![0x80, 0x02, 0x08, 0x80];
    let r = h.receive_data(1, &req);
    assert!(matches!(r, Err(FrameIoError::InvalidPayload(1, 0x8002))));
}

#[test]
fn media_status_updates_carry_no_obligation() {
    let h = MediaStatusChannelHandler {};
    let playback = vec![0x80, 0x01, 0x08, 1];
    let r = h.receive_data(9, &playback).expect("observed");
    assert!(r.frames.is_empty() && r.requests.is_empty());
}

#[test]
fn navigation_events_reach_their_callbacks() {
    let h = NavigationChannelHandler {};
    let turn = vec![0x80, 0x02, 0xAB];
    let r = h.receive_data(8, &turn).expect("handled");
    assert!(matches!(&r.requests[0],
        IntegrationRequest::NavigationTurn(b) if b == &vec![0xAB]));
}

#[test]
fn nonspecific_namespace_recognizes_version_request() {
    let payload = vec![0x00, 0x01, 0x00, 0x01, 0x00, 0x01];
    assert_eq!(
        AndroidAutoNonspecificMessage::try_from_payload(&payload),
        Some(AndroidAutoNonspecificMessage::VersionRequest)
    );
    assert_eq!(AndroidAutoNonspecificMessage::try_from_payload(&vec![0x00, 0x05]), None);
}

#[test]
fn channel_map_freezes_the_lookup() {
    let s = AndroidAutoSession::new(full_caps());
    let map = s.channel_map();
    assert_eq!(map.input, Some(1));
    assert_eq!(map.sensor, Some(2));
    assert_eq!(map.audio_input, Some(7));
    let m = AndroidAutoMessage::Sensor(vec![0x0A]).sendable();
    let f = m.into_frame_with(&map).expect("channel found");
    assert_eq!(f.header.channel_id, 2);
    // A kind no handler serves yields no frame.
    let mut caps = full_caps();
    caps.sensors = None;
    let bare = AndroidAutoSession::new(caps);
    let bare_map = bare.channel_map();
    assert_eq!(bare_map.sensor, None);
    let m = SendableAndroidAutoMessage { channel: SendableChannelType::Sensor, data: vec![1] };
    assert!(m.into_frame_with(&bare_map).is_none());
}
