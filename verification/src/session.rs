//! The session driver: the handler table built from the integration's
//! capabilities, the dispatch of decoded frames to handlers, and the plain
//! requests handlers make of the integration, which the surrounding
//! runtime performs between frames.

use vstd::prelude::*;

use crate::audio::audio_step_ok;
use crate::avinput::{avinput_step_ok, AvInputChannelHandler};
use crate::bluetooth::{bluetooth_step_ok, BluetoothChannelHandler};
use crate::control::{auth_frame_count, ControlChannelHandler, ControlState};
use crate::input::input_step_ok;
use crate::mediastatus::mediastatus_step_ok;
use crate::navigation::navigation_step_ok;
use crate::sensor::sensor_step_ok;
use crate::video::video_step_ok;
use crate::descriptors::{audio_descriptor_bytes, av_input_descriptor_bytes,
    bluetooth_descriptor_bytes, head_unit_wf, input_descriptor_bytes,
    media_status_descriptor_bytes, navigation_descriptor_bytes, sensor_descriptor_bytes,
    video_descriptor_bytes, ChannelDescriptor};
use crate::ids::{AUDIO_TYPE_MEDIA, AUDIO_TYPE_SPEECH, AUDIO_TYPE_SYSTEM};
use crate::frame::AndroidAutoFrame;
use crate::input::InputChannelHandler;
use crate::mediaaudio::MediaAudioChannelHandler;
use crate::mediastatus::MediaStatusChannelHandler;
use crate::message::message_header;
use crate::navigation::NavigationChannelHandler;
use crate::sensor::SensorChannelHandler;
use crate::speechaudio::SpeechAudioChannelHandler;
use crate::sysaudio::SystemAudioChannelHandler;
use crate::video::VideoChannelHandler;
use crate::{AndroidAutoConfiguration, AudioChannelType, BluetoothInformation, ChannelId,
    FrameIoError, FrameSequenceError, InputConfiguration, SendableAndroidAutoMessage,
    SendableChannelType, SensorInformation, VideoConfiguration};

verus! {

/// One call a handler asks the integration to perform. The runtime carries
/// it out and, where a result decides the reply, hands the outcome back to
/// the handler named in the request's documentation.
pub enum IntegrationRequest {
    /// Prepare the video sink; answer via the video handler's `open_result`.
    SetupVideo,
    /// Deliver one video payload and its optional timestamp.
    ReceiveVideo(Vec<u8>, Option<u64>),
    /// Wait until video may take the screen; answer via the video handler's
    /// `focus_ready`.
    WaitForVideoFocus,
    /// Tell the video sink whether it holds focus.
    SetVideoFocus(bool),
    /// Open one audio output channel; answer via `audio_open_result`.
    OpenAudioChannel(AudioChannelType),
    /// Deliver one chunk of audio samples to an output channel.
    ReceiveAudio(AudioChannelType, Vec<u8>),
    /// An audio output channel is about to start.
    StartAudio(AudioChannelType),
    /// An audio output channel is about to stop.
    StopAudio(AudioChannelType),
    /// Open the audio input device; answer via the AV-input handler's
    /// `open_result`.
    OpenAudioInput,
    /// Close the audio input device; answer via the AV-input handler's
    /// `close_result`.
    CloseAudioInput,
    /// The audio input stream is about to start.
    StartAudioInput,
    /// The audio input stream is about to stop.
    StopAudioInput,
    /// Start one sensor; answer via the sensor handler's `start_result`.
    StartSensor(u32),
    /// Bind the given input codes, all of them already known to be
    /// supported; answer via the input handler's `binding_result`.
    BindInputCodes(Vec<u32>),
    /// A navigation status body arrived.
    NavigationStatus(Vec<u8>),
    /// A navigation turn event body arrived.
    NavigationTurn(Vec<u8>),
    /// A navigation distance event body arrived.
    NavigationDistance(Vec<u8>),
}

/// What one handler step produced: frames to write to the device, in
/// order, and requests for the integration.
pub struct HandlerResponse {
    /// The frames to write, in order.
    pub frames: Vec<AndroidAutoFrame>,
    /// The integration work the step asks for.
    pub requests: Vec<IntegrationRequest>,
    /// Whether the peer asked for a shutdown; after the frames above are
    /// written, the session ends with a peer-initiated shutdown error.
    pub shutdown: bool,
}

impl HandlerResponse {
    /// A step that asks for nothing.
    pub fn empty() -> (r: HandlerResponse)
        ensures
            r.frames@.len() == 0,
            r.requests@.len() == 0,
            !r.shutdown,
    {
        HandlerResponse { frames: Vec::new(), requests: Vec::new(), shutdown: false }
    }

    /// A step that writes one frame.
    pub fn with_frame(f: AndroidAutoFrame) -> (r: HandlerResponse)
        ensures
            r.frames@.len() == 1,
            r.frames@[0] == f,
            r.requests@.len() == 0,
            !r.shutdown,
    {
        let mut frames: Vec<AndroidAutoFrame> = Vec::new();
        frames.push(f);
        HandlerResponse { frames, requests: Vec::new(), shutdown: false }
    }

    /// A step that asks the integration for one call.
    pub fn with_request(q: IntegrationRequest) -> (r: HandlerResponse)
        ensures
            r.frames@.len() == 0,
            r.requests@.len() == 1,
            r.requests@[0] == q,
            !r.shutdown,
    {
        let mut requests: Vec<IntegrationRequest> = Vec::new();
        requests.push(q);
        HandlerResponse { frames: Vec::new(), requests, shutdown: false }
    }
}


/// The capability record a handler contributes under a given channel: the
/// descriptor its kind builds from its own configuration, with the video
/// stream shape coming from the declared capabilities.
pub open spec fn handler_descriptor_bytes(
    h: ChannelHandler,
    chanid: ChannelId,
    caps: IntegrationCapabilities,
) -> Seq<u8> {
    match h {
        ChannelHandler::Input(ih) => input_descriptor_bytes(chanid, ih.config),
        ChannelHandler::Sensor(sh) => sensor_descriptor_bytes(chanid, sh.info),
        ChannelHandler::Video(_) => video_descriptor_bytes(chanid, caps.video->Some_0),
        ChannelHandler::MediaAudio(_) => audio_descriptor_bytes(
            chanid,
            AUDIO_TYPE_MEDIA,
            48000,
            16,
            2,
        ),
        ChannelHandler::SpeechAudio(_) => audio_descriptor_bytes(
            chanid,
            AUDIO_TYPE_SPEECH,
            16000,
            16,
            1,
        ),
        ChannelHandler::SystemAudio(_) => audio_descriptor_bytes(
            chanid,
            AUDIO_TYPE_SYSTEM,
            16000,
            16,
            1,
        ),
        ChannelHandler::AvInput(_) => av_input_descriptor_bytes(chanid),
        ChannelHandler::Bluetooth(bh) => bluetooth_descriptor_bytes(chanid, bh.info),
        ChannelHandler::Navigation(_) => navigation_descriptor_bytes(chanid),
        ChannelHandler::MediaStatus(_) => media_status_descriptor_bytes(chanid),
        ChannelHandler::Control(_) => Seq::empty(),
    }
}

/// The declaration order of the handler table: each present capability's
/// handler at its fixed place, the three audio outputs together, and the
/// media-status handler closing the table.
pub open spec fn table_shaped(caps: IntegrationCapabilities, hs: Seq<ChannelHandler>) -> bool {
    let ni: int = if caps.input is Some {
        1
    } else {
        0
    };
    let ns: int = if caps.sensors is Some {
        1
    } else {
        0
    };
    let nv: int = if caps.video is Some {
        1
    } else {
        0
    };
    let na: int = if caps.audio_output {
        3
    } else {
        0
    };
    let nai: int = if caps.audio_input {
        1
    } else {
        0
    };
    let nb: int = if caps.bluetooth is Some {
        1
    } else {
        0
    };
    &&& hs.len() == expected_handler_count(caps)
    &&& (caps.input matches Some(ic) ==> hs[0] is Input && hs[0]->Input_0.config == ic)
    &&& (caps.sensors matches Some(si) ==> hs[ni] is Sensor && hs[ni]->Sensor_0.info == si)
    &&& (caps.video is Some ==> hs[ni + ns] is Video)
    &&& (caps.audio_output ==> hs[ni + ns + nv] is MediaAudio && hs[ni + ns + nv + 1]
        is SpeechAudio && hs[ni + ns + nv + 2] is SystemAudio)
    &&& (caps.audio_input ==> hs[ni + ns + nv + na] is AvInput)
    &&& (caps.bluetooth matches Some(bi) ==> hs[ni + ns + nv + na + nai] is Bluetooth && hs[ni + ns
        + nv + na + nai]->Bluetooth_0.info == bi)
    &&& (caps.navigation ==> hs[ni + ns + nv + na + nai + nb] is Navigation)
    &&& hs[hs.len() - 1] is MediaStatus
}

/// What one dispatched step must produce, by the kind of the handler the
/// frame's channel names: the handler's own step relation, with every kind
/// but video leaving its handler unchanged.
pub open spec fn channel_step_ok(
    pre: ChannelHandler,
    post: ChannelHandler,
    channel: crate::ChannelId,
    data: Seq<u8>,
    r: Result<HandlerResponse, FrameIoError>,
) -> bool {
    match pre {
        ChannelHandler::Video(v0) => (post matches ChannelHandler::Video(v1) && video_step_ok(
            v0,
            v1,
            channel,
            data,
            r,
        )),
        ChannelHandler::MediaAudio(_) => post == pre && audio_step_ok(
            AudioChannelType::Media,
            channel,
            data,
            r,
        ),
        ChannelHandler::SpeechAudio(_) => post == pre && audio_step_ok(
            AudioChannelType::Speech,
            channel,
            data,
            r,
        ),
        ChannelHandler::SystemAudio(_) => post == pre && audio_step_ok(
            AudioChannelType::System,
            channel,
            data,
            r,
        ),
        ChannelHandler::AvInput(_) => post == pre && avinput_step_ok(channel, data, r),
        ChannelHandler::Input(ih) => post == pre && input_step_ok(ih.config, channel, data, r),
        ChannelHandler::Sensor(_) => post == pre && sensor_step_ok(channel, data, r),
        ChannelHandler::Bluetooth(_) => post == pre && bluetooth_step_ok(channel, data, r),
        ChannelHandler::Navigation(_) => post == pre && navigation_step_ok(channel, data, r),
        ChannelHandler::MediaStatus(_) => post == pre && mediastatus_step_ok(channel, data, r),
        ChannelHandler::Control(_) => post == pre && r is Err,
    }
}

/// Whether a handler serves the given pushable message kind.
pub open spec fn serves_kind(h: ChannelHandler, kind: SendableChannelType) -> bool {
    match (h, kind) {
        (ChannelHandler::Sensor(_), SendableChannelType::Sensor) => true,
        (ChannelHandler::AvInput(_), SendableChannelType::AudioInput) => true,
        (ChannelHandler::Input(_), SendableChannelType::Input) => true,
        _ => false,
    }
}

/// How many handlers the declared capabilities bring into the table,
/// besides the control channel: the media-status handler always, and one
/// per capability, with audio output bringing its three channels.
pub open spec fn expected_handler_count(caps: IntegrationCapabilities) -> int {
    1 + (if caps.input is Some {
        1int
    } else {
        0int
    }) + (if caps.sensors is Some {
        1int
    } else {
        0int
    }) + (if caps.video is Some {
        1int
    } else {
        0int
    }) + (if caps.audio_output {
        3int
    } else {
        0int
    }) + (if caps.audio_input {
        1int
    } else {
        0int
    }) + (if caps.bluetooth is Some {
        1int
    } else {
        0int
    }) + (if caps.navigation {
        1int
    } else {
        0int
    })
}

/// One sub-channel handler of the table, tagged by its kind.
pub enum ChannelHandler {
    /// The control channel handler.
    Control(ControlChannelHandler),
    /// The in-session bluetooth channel handler.
    Bluetooth(BluetoothChannelHandler),
    /// The microphone channel handler.
    AvInput(AvInputChannelHandler),
    /// The system audio channel handler.
    SystemAudio(SystemAudioChannelHandler),
    /// The speech audio channel handler.
    SpeechAudio(SpeechAudioChannelHandler),
    /// The sensor channel handler.
    Sensor(SensorChannelHandler),
    /// The video channel handler.
    Video(VideoChannelHandler),
    /// The navigation channel handler.
    Navigation(NavigationChannelHandler),
    /// The media-status channel handler.
    MediaStatus(MediaStatusChannelHandler),
    /// The input channel handler.
    Input(InputChannelHandler),
    /// The media audio channel handler.
    MediaAudio(MediaAudioChannelHandler),
}

/// The capabilities the integration declared, as plain values: each present
/// capability brings its channel into the session.
pub struct IntegrationCapabilities {
    /// Input support, with its declared key codes and touch screen.
    pub input: Option<InputConfiguration>,
    /// Sensor support, with the declared sensor types.
    pub sensors: Option<SensorInformation>,
    /// Video support, with the desired stream shape.
    pub video: Option<VideoConfiguration>,
    /// Whether audio output is available.
    pub audio_output: bool,
    /// Whether audio input is available.
    pub audio_input: bool,
    /// Bluetooth support, with the adapter identity.
    pub bluetooth: Option<BluetoothInformation>,
    /// Whether navigation callbacks are available.
    pub navigation: bool,
}

impl IntegrationCapabilities {
    /// Capability records small enough for their descriptors.
    pub open spec fn wf(self) -> bool {
        &&& (self.input matches Some(ic) ==> ic.keycodes@.len() <= 256)
        &&& (self.sensors matches Some(si) ==> si.sensors@.len() <= 256)
        &&& (self.bluetooth matches Some(bi) ==> crate::descriptors::string_len_ok(bi.address@))
    }
}

/// One session with an attached device: the control channel handler and
/// the handler of every other sub-channel, where the handler at position
/// `i` serves channel `i + 1`.
pub struct AndroidAutoSession {
    /// The control channel handler, serving channel 0.
    pub control: ControlChannelHandler,
    /// The handlers of the other sub-channels, in declaration order.
    pub handlers: Vec<ChannelHandler>,
}

impl AndroidAutoSession {
    /// A session's handler table is small and its descriptor list fit for
    /// discovery.
    pub open spec fn wf(self) -> bool {
        &&& self.control.wf()
        &&& self.handlers@.len() <= 16
    }

    /// Build the handler table from the declared capabilities, in the fixed
    /// declaration order, collect each handler's descriptor under the
    /// channel it will serve, and freeze the list in the control handler.
    #[verifier::rlimit(100)]
    #[verifier::spinoff_prover]
    pub fn new(caps: IntegrationCapabilities) -> (r: AndroidAutoSession)
        requires
            caps.wf(),
        ensures
            r.wf(),
            r.control.state == ControlState::AwaitingVersionResponse,
            table_shaped(caps, r.handlers@),
            r.control.inner.channels@.len() == r.handlers@.len(),
            forall|j: int|
                0 <= j < r.control.inner.channels@.len()
                    ==> (#[trigger] r.control.inner.channels@[j]).channel_id == j + 1,
            forall|j: int|
                0 <= j < r.control.inner.channels@.len()
                    ==> (#[trigger] r.control.inner.channels@[j]).bytes@
                    == handler_descriptor_bytes(r.handlers@[j], (j + 1) as u8, caps),
    {
        let mut control = ControlChannelHandler::new();
        let mut handlers: Vec<ChannelHandler> = Vec::new();
        let mut chans: Vec<ChannelDescriptor> = Vec::new();
        match caps.input {
            Option::Some(ic) => {
                let h = InputChannelHandler { config: ic };
                let chanid = (handlers.len() + 1) as u8;
                match h.build_channel(chanid) {
                    Option::Some(d) => chans.push(d),
                    Option::None => (),
                }
                handlers.push(ChannelHandler::Input(h));
            },
            Option::None => (),
        }
        match caps.sensors {
            Option::Some(si) => {
                let h = SensorChannelHandler { info: si };
                let chanid = (handlers.len() + 1) as u8;
                match h.build_channel(chanid) {
                    Option::Some(d) => chans.push(d),
                    Option::None => (),
                }
                handlers.push(ChannelHandler::Sensor(h));
            },
            Option::None => (),
        }
        match caps.video {
            Option::Some(v) => {
                let h = VideoChannelHandler::new();
                let chanid = (handlers.len() + 1) as u8;
                match h.build_channel(&v, chanid) {
                    Option::Some(d) => chans.push(d),
                    Option::None => (),
                }
                handlers.push(ChannelHandler::Video(h));
            },
            Option::None => (),
        }
        if caps.audio_output {
            let h = MediaAudioChannelHandler {};
            let chanid = (handlers.len() + 1) as u8;
            match h.build_channel(chanid) {
                Option::Some(d) => chans.push(d),
                Option::None => (),
            }
            handlers.push(ChannelHandler::MediaAudio(h));
            let h = SpeechAudioChannelHandler {};
            let chanid = (handlers.len() + 1) as u8;
            match h.build_channel(chanid) {
                Option::Some(d) => chans.push(d),
                Option::None => (),
            }
            handlers.push(ChannelHandler::SpeechAudio(h));
            let h = SystemAudioChannelHandler {};
            let chanid = (handlers.len() + 1) as u8;
            match h.build_channel(chanid) {
                Option::Some(d) => chans.push(d),
                Option::None => (),
            }
            handlers.push(ChannelHandler::SystemAudio(h));
        }
        if caps.audio_input {
            let h = AvInputChannelHandler {};
            let chanid = (handlers.len() + 1) as u8;
            match h.build_channel(chanid) {
                Option::Some(d) => chans.push(d),
                Option::None => (),
            }
            handlers.push(ChannelHandler::AvInput(h));
        }
        match caps.bluetooth {
            Option::Some(bi) => {
                let h = BluetoothChannelHandler { info: bi };
                let chanid = (handlers.len() + 1) as u8;
                match h.build_channel(chanid) {
                    Option::Some(d) => chans.push(d),
                    Option::None => (),
                }
                handlers.push(ChannelHandler::Bluetooth(h));
            },
            Option::None => (),
        }
        if caps.navigation {
            let h = NavigationChannelHandler {};
            let chanid = (handlers.len() + 1) as u8;
            match h.build_channel(chanid) {
                Option::Some(d) => chans.push(d),
                Option::None => (),
            }
            handlers.push(ChannelHandler::Navigation(h));
        }
        let h = MediaStatusChannelHandler {};
        let chanid = (handlers.len() + 1) as u8;
        match h.build_channel(chanid) {
            Option::Some(d) => chans.push(d),
            Option::None => (),
        }
        handlers.push(ChannelHandler::MediaStatus(h));
        control.set_channels(chans);
        AndroidAutoSession { control, handlers }
    }

    /// Dispatch one reassembled logical message to its channel's handler,
    /// refusing frames whose flags break the protocol's ordering rules: the
    /// control flag away from the control channel, and encryption before
    /// the handshake completed.
    pub fn dispatch(
        &mut self,
        conn: &mut rustls::client::ClientConnection,
        config: &AndroidAutoConfiguration,
        f: &AndroidAutoFrame,
    ) -> (r: Result<HandlerResponse, FrameIoError>)
        requires
            old(self).wf(),
            head_unit_wf(config.unit),
            f.header.channel_id == 0 || f.header.channel_id as int <= old(self).handlers@.len(),
        ensures
            final(self).wf(),
            final(self).control.state.rank() >= old(self).control.state.rank(),
            final(self).control.state is Ready ==> old(self).control.state is Handshaking || old(
                self,
            ).control.state is Ready,
            f.header.control && f.header.channel_id != 0 ==> r == Err::<
                HandlerResponse,
                FrameIoError,
            >(FrameIoError::Sequence(FrameSequenceError::ControlFlagOnSpecificChannel)),
            f.header.channel_id != 0 ==> final(self).control == old(self).control,
            f.header.encryption && !(f.header.control && f.header.channel_id != 0) && !(old(
                self,
            ).control.state is Ready) ==> r == Err::<
                HandlerResponse,
                FrameIoError,
            >(FrameIoError::Sequence(FrameSequenceError::EncryptedBeforeHandshake)),
            ({
                let emitted: int = match r {
                    Ok(h) => auth_frame_count(h.frames@),
                    Err(_) => 0,
                };
                emitted == if old(self).control.state is Handshaking && final(self).control.state
                    is Ready {
                    1int
                } else {
                    0int
                }
            }),
            ({
                let c = f.header.channel_id;
                c != 0 && !f.header.control && !(f.header.encryption && !(old(
                    self,
                ).control.state is Ready)) ==> {
                    let idx = c - 1;
                    &&& final(self).handlers@.len() == old(self).handlers@.len()
                    &&& forall|j: int|
                        0 <= j < old(self).handlers@.len() && j != idx ==> final(self).handlers@[j]
                            == old(self).handlers@[j]
                    &&& channel_step_ok(
                        old(self).handlers@[idx],
                        final(self).handlers@[idx],
                        c,
                        f.data@,
                        r,
                    )
                }
            }),
    {
        if f.header.control && f.header.channel_id != 0 {
            return Err(FrameIoError::Sequence(FrameSequenceError::ControlFlagOnSpecificChannel));
        }
        if f.header.encryption && !matches!(self.control.state, ControlState::Ready) {
            return Err(FrameIoError::Sequence(FrameSequenceError::EncryptedBeforeHandshake));
        }
        let channel = f.header.channel_id;
        if channel == 0 {
            self.control.receive_data(conn, config, &f.data)
        } else {
            let idx = (channel - 1) as usize;
            let ghost pre = self.handlers@;
            let mut h = self.handlers.remove(idx);
            let r = match &mut h {
                ChannelHandler::Control(_) => Err(FrameIoError::UnknownMessage(channel, 0)),
                ChannelHandler::Bluetooth(b) => b.receive_data(channel, &f.data),
                ChannelHandler::AvInput(a) => a.receive_data(channel, &f.data),
                ChannelHandler::SystemAudio(a) => a.receive_data(channel, &f.data),
                ChannelHandler::SpeechAudio(a) => a.receive_data(channel, &f.data),
                ChannelHandler::Sensor(sn) => sn.receive_data(channel, &f.data),
                ChannelHandler::Video(v) => v.receive_data(channel, &f.data),
                ChannelHandler::Navigation(n) => n.receive_data(channel, &f.data),
                ChannelHandler::MediaStatus(m) => m.receive_data(channel, &f.data),
                ChannelHandler::Input(i) => i.receive_data(channel, &f.data),
                ChannelHandler::MediaAudio(a) => a.receive_data(channel, &f.data),
            };
            self.handlers.insert(idx, h);
            proof {
                assert forall|j: int| 0 <= j < pre.len() && j != idx implies self.handlers@[j]
                    == pre[j] by {
                    assert(self.handlers@ == pre.remove(idx as int).insert(idx as int, h));
                }
                assert(self.handlers@[idx as int] == h);
            }
            r
        }
    }

    /// The channel a pushable message kind is served on, when its handler
    /// is in the table.
    pub fn channel_for(&self, kind: SendableChannelType) -> (r: Option<ChannelId>)
        requires
            self.wf(),
        ensures
            r matches Some(c) ==> 1 <= c <= self.handlers@.len() && serves_kind(
                self.handlers@[c - 1],
                kind,
            ) && forall|j: int| 0 <= j < c - 1 ==> !serves_kind(#[trigger] self.handlers@[j], kind),
            r is None ==> forall|i: int|
                0 <= i < self.handlers@.len() ==> !serves_kind(#[trigger] self.handlers@[i], kind),
    {
        let n = self.handlers.len();
        let mut i: usize = 0;
        while i < n
            invariant
                i <= n,
                n == self.handlers@.len() <= 16,
                forall|j: int| 0 <= j < i ==> !serves_kind(#[trigger] self.handlers@[j], kind),
            decreases n - i,
        {
            let hit = match (&self.handlers[i], kind) {
                (ChannelHandler::Sensor(_), SendableChannelType::Sensor) => true,
                (ChannelHandler::AvInput(_), SendableChannelType::AudioInput) => true,
                (ChannelHandler::Input(_), SendableChannelType::Input) => true,
                _ => false,
            };
            if hit {
                return Option::Some((i + 1) as u8);
            }
            i = i + 1;
        }
        Option::None
    }
}

impl AndroidAutoSession {
    /// Freeze the channels of the pushable message kinds into a map for the
    /// outbound pump.
    pub fn channel_map(&self) -> (r: OutboundChannelMap)
        requires
            self.wf(),
        ensures
            r.wf(),
            r.table@ == self.handlers@,
    {
        OutboundChannelMap {
            input: self.channel_for(SendableChannelType::Input),
            audio_input: self.channel_for(SendableChannelType::AudioInput),
            sensor: self.channel_for(SendableChannelType::Sensor),
            table: Ghost(self.handlers@),
        }
    }
}

impl SendableAndroidAutoMessage {
    /// The frame that carries a pushed message: a single encrypted frame on
    /// the first channel whose handler serves the message's kind. There is
    /// no frame exactly when no handler serves the kind or the payload
    /// cannot fit one frame.
    pub fn into_frame(self, session: &AndroidAutoSession) -> (r: Option<AndroidAutoFrame>)
        requires
            session.wf(),
        ensures
            r is Some <==> self.data@.len() <= 0xFFFF && exists|i: int|
                0 <= i < session.handlers@.len() && serves_kind(
                    #[trigger] session.handlers@[i],
                    self.channel,
                ),
            r matches Some(f) ==> {
                &&& f.header == message_header(f.header.channel_id, true)
                &&& 1 <= f.header.channel_id <= session.handlers@.len()
                &&& serves_kind(session.handlers@[f.header.channel_id - 1], self.channel)
                &&& forall|j: int|
                    0 <= j < f.header.channel_id - 1 ==> !serves_kind(
                        #[trigger] session.handlers@[j],
                        self.channel,
                    )
                &&& f.data@ == self.data@
                &&& f.wf()
            },
    {
        let map = session.channel_map();
        self.into_frame_with(&map)
    }

    /// The frame that carries a pushed message, looked up through a channel
    /// map frozen at session setup, so the outbound pump needs no access to
    /// the handler table itself.
    pub fn into_frame_with(self, map: &OutboundChannelMap) -> (r: Option<AndroidAutoFrame>)
        requires
            map.wf(),
        ensures
            r is Some <==> self.data@.len() <= 0xFFFF && exists|i: int|
                0 <= i < map.table@.len() && serves_kind(#[trigger] map.table@[i], self.channel),
            r matches Some(f) ==> {
                &&& f.header == message_header(f.header.channel_id, true)
                &&& 1 <= f.header.channel_id <= map.table@.len()
                &&& serves_kind(map.table@[f.header.channel_id - 1], self.channel)
                &&& forall|j: int|
                    0 <= j < f.header.channel_id - 1 ==> !serves_kind(
                        #[trigger] map.table@[j],
                        self.channel,
                    )
                &&& f.data@ == self.data@
                &&& f.wf()
            },
    {
        let looked_up = match self.channel {
            SendableChannelType::Input => map.input,
            SendableChannelType::AudioInput => map.audio_input,
            SendableChannelType::Sensor => map.sensor,
            SendableChannelType::Other => Option::None,
        };
        proof {
            if self.channel is Other {
                assert(forall|i: int|
                    0 <= i < map.table@.len() ==> !serves_kind(
                        #[trigger] map.table@[i],
                        self.channel,
                    ));
            }
        }
        let channel = match looked_up {
            Option::None => {
                return Option::None;
            },
            Option::Some(c) => c,
        };
        if self.data.len() > 0xFFFF {
            return Option::None;
        }
        Option::Some(
            AndroidAutoFrame {
                header: crate::frame::FrameHeader {
                    channel_id: channel,
                    frame_type: crate::frame::FrameHeaderType::Single,
                    control: false,
                    encryption: true,
                },
                data: self.data,
                first_total: Option::None,
            },
        )
    }
}

/// The channels the pushable message kinds are served on, frozen at session
/// setup and handed to the outbound pump.
pub struct OutboundChannelMap {
    /// The input channel, when an input handler is in the table.
    pub input: Option<ChannelId>,
    /// The microphone channel, when one is in the table.
    pub audio_input: Option<ChannelId>,
    /// The sensor channel, when one is in the table.
    pub sensor: Option<ChannelId>,
    /// The handler table the map was frozen from.
    pub table: Ghost<Seq<ChannelHandler>>,
}

impl OutboundChannelMap {
    /// Each entry names the first handler of its kind in the given table,
    /// and is absent exactly when the table holds none.
    pub open spec fn entry_wf(
        entry: Option<ChannelId>,
        handlers: Seq<ChannelHandler>,
        kind: SendableChannelType,
    ) -> bool {
        &&& (entry matches Some(c) ==> 1 <= c <= handlers.len() && serves_kind(
            handlers[c - 1],
            kind,
        ) && forall|j: int| 0 <= j < c - 1 ==> !serves_kind(#[trigger] handlers[j], kind))
        &&& (entry is None ==> forall|i: int|
            0 <= i < handlers.len() ==> !serves_kind(#[trigger] handlers[i], kind))
    }

    /// The map is the channel lookup of the table it was frozen from.
    pub open spec fn wf(self) -> bool {
        &&& Self::entry_wf(self.input, self.table@, SendableChannelType::Input)
        &&& Self::entry_wf(self.audio_input, self.table@, SendableChannelType::AudioInput)
        &&& Self::entry_wf(self.sensor, self.table@, SendableChannelType::Sensor)
    }
}

} // verus!
