//! Channel descriptors: the capability record each sub-channel contributes
//! to service discovery, and the service-discovery response body that
//! carries them, in order, together with the head unit's information.

use vstd::prelude::*;
use vstd::string::StrSliceExecFns;
use vstd::utf8::encode_utf8;

use crate::ids::{AVSTREAM_TYPE_AUDIO, AVSTREAM_TYPE_VIDEO, BT_PAIRING_METHOD_HFP,
    NAV_TURN_TYPE_IMAGE};
use crate::proto::{field_bytes, lemma_field_bytes_len, push_len_field, push_varint_field, FieldV};
use crate::{BluetoothInformation, ChannelId, HeadUnitInfo, InputConfiguration, SensorInformation,
    VideoConfiguration};

verus! {

/// The UTF-8 bytes a string field carries.
pub open spec fn string_bytes(s: Seq<char>) -> Seq<u8> {
    encode_utf8(s)
}

/// A string short enough to sit in a descriptor or discovery field.
pub open spec fn string_len_ok(s: Seq<char>) -> bool {
    string_bytes(s).len() <= 0x800
}

/// The capability record of one sub-channel, identified by the channel it
/// describes and carried as its encoded record bytes.
#[derive(Clone, Debug)]
pub struct ChannelDescriptor {
    /// The channel the record describes.
    pub channel_id: ChannelId,
    /// The encoded record.
    pub bytes: Vec<u8>,
}

impl ChannelDescriptor {
    /// A record small enough to sit inside one discovery response field.
    pub open spec fn wf(self) -> bool {
        self.bytes@.len() <= 0x4000
    }
}

/// The body of an audio configuration record.
pub open spec fn audio_config_body(sample_rate: u32, bit_depth: u32, channels: u32) -> Seq<u8> {
    field_bytes(1, FieldV::VInt(sample_rate as u64)) + field_bytes(2, FieldV::VInt(bit_depth as u64))
        + field_bytes(3, FieldV::VInt(channels as u64))
}

/// The body of an audio stream channel record: the stream kind, the audio
/// kind, one offered audio configuration, and availability during calls.
pub open spec fn audio_channel_body(audio_type: u64, sample_rate: u32, bit_depth: u32, channels: u32) -> Seq<
    u8,
> {
    field_bytes(1, FieldV::VInt(AVSTREAM_TYPE_AUDIO)) + field_bytes(2, FieldV::VInt(audio_type))
        + field_bytes(3, FieldV::VBytes(audio_config_body(sample_rate, bit_depth, channels)))
        + field_bytes(5, FieldV::VInt(1))
}

/// The descriptor of an audio output channel.
pub open spec fn audio_descriptor_bytes(chanid: ChannelId, audio_type: u64, sample_rate: u32, bit_depth: u32, channels: u32) -> Seq<
    u8,
> {
    field_bytes(1, FieldV::VInt(chanid as u64)) + field_bytes(
        3,
        FieldV::VBytes(audio_channel_body(audio_type, sample_rate, bit_depth, channels)),
    )
}

/// Build one audio configuration record.
fn build_audio_config(sample_rate: u32, bit_depth: u32, channels: u32) -> (r: Vec<u8>)
    ensures
        r@ == audio_config_body(sample_rate, bit_depth, channels),
        r@.len() <= 60,
{
    let mut b: Vec<u8> = Vec::new();
    push_varint_field(&mut b, 1, sample_rate as u64);
    push_varint_field(&mut b, 2, bit_depth as u64);
    push_varint_field(&mut b, 3, channels as u64);
    proof {
        lemma_field_bytes_len(1, FieldV::VInt(sample_rate as u64));
        lemma_field_bytes_len(2, FieldV::VInt(bit_depth as u64));
        lemma_field_bytes_len(3, FieldV::VInt(channels as u64));
        assert(b@ =~= audio_config_body(sample_rate, bit_depth, channels));
    }
    b
}

/// Build the descriptor of an audio output channel.
pub fn audio_channel_descriptor(chanid: ChannelId, audio_type: u64, sample_rate: u32, bit_depth: u32, channels: u32) -> (r:
    ChannelDescriptor)
    requires
        audio_type <= 0xFF,
    ensures
        r.channel_id == chanid,
        r.bytes@ == audio_descriptor_bytes(chanid, audio_type, sample_rate, bit_depth, channels),
        r.wf(),
{
    let cfg = build_audio_config(sample_rate, bit_depth, channels);
    let mut avchan: Vec<u8> = Vec::new();
    push_varint_field(&mut avchan, 1, AVSTREAM_TYPE_AUDIO);
    push_varint_field(&mut avchan, 2, audio_type);
    push_len_field(&mut avchan, 3, &cfg);
    push_varint_field(&mut avchan, 5, 1);
    proof {
        lemma_field_bytes_len(1, FieldV::VInt(AVSTREAM_TYPE_AUDIO));
        lemma_field_bytes_len(2, FieldV::VInt(audio_type));
        lemma_field_bytes_len(3, FieldV::VBytes(cfg@));
        lemma_field_bytes_len(5, FieldV::VInt(1));
        assert(avchan@ =~= audio_channel_body(audio_type, sample_rate, bit_depth, channels));
    }
    let mut d: Vec<u8> = Vec::new();
    push_varint_field(&mut d, 1, chanid as u64);
    push_len_field(&mut d, 3, &avchan);
    proof {
        lemma_field_bytes_len(1, FieldV::VInt(chanid as u64));
        lemma_field_bytes_len(3, FieldV::VBytes(avchan@));
        assert(d@ =~= audio_descriptor_bytes(
            chanid,
            audio_type,
            sample_rate,
            bit_depth,
            channels,
        ));
    }
    ChannelDescriptor { channel_id: chanid, bytes: d }
}

/// The body of a video configuration record.
pub open spec fn video_config_body(v: VideoConfiguration) -> Seq<u8> {
    field_bytes(1, FieldV::VInt(v.resolution as u64)) + field_bytes(2, FieldV::VInt(v.fps as u64))
        + field_bytes(3, FieldV::VInt(0)) + field_bytes(4, FieldV::VInt(0)) + field_bytes(
        5,
        FieldV::VInt(v.dpi as u64),
    )
}

/// The body of the video stream channel record.
pub open spec fn video_channel_body(v: VideoConfiguration) -> Seq<u8> {
    field_bytes(1, FieldV::VInt(AVSTREAM_TYPE_VIDEO)) + field_bytes(2, FieldV::VInt(2)) + field_bytes(
        4,
        FieldV::VBytes(video_config_body(v)),
    ) + field_bytes(5, FieldV::VInt(1))
}

/// The descriptor of the video channel.
pub open spec fn video_descriptor_bytes(chanid: ChannelId, v: VideoConfiguration) -> Seq<u8> {
    field_bytes(1, FieldV::VInt(chanid as u64)) + field_bytes(
        3,
        FieldV::VBytes(video_channel_body(v)),
    )
}

/// Build the descriptor of the video channel.
pub fn video_channel_descriptor(chanid: ChannelId, v: &VideoConfiguration) -> (r: ChannelDescriptor)
    ensures
        r.channel_id == chanid,
        r.bytes@ == video_descriptor_bytes(chanid, *v),
        r.wf(),
{
    let mut cfg: Vec<u8> = Vec::new();
    push_varint_field(&mut cfg, 1, v.resolution as u64);
    push_varint_field(&mut cfg, 2, v.fps as u64);
    push_varint_field(&mut cfg, 3, 0);
    push_varint_field(&mut cfg, 4, 0);
    push_varint_field(&mut cfg, 5, v.dpi as u64);
    proof {
        lemma_field_bytes_len(1, FieldV::VInt(v.resolution as u64));
        lemma_field_bytes_len(2, FieldV::VInt(v.fps as u64));
        lemma_field_bytes_len(3, FieldV::VInt(0));
        lemma_field_bytes_len(4, FieldV::VInt(0));
        lemma_field_bytes_len(5, FieldV::VInt(v.dpi as u64));
        assert(cfg@ =~= video_config_body(*v));
    }
    let mut vchan: Vec<u8> = Vec::new();
    push_varint_field(&mut vchan, 1, AVSTREAM_TYPE_VIDEO);
    push_varint_field(&mut vchan, 2, 2);
    push_len_field(&mut vchan, 4, &cfg);
    push_varint_field(&mut vchan, 5, 1);
    proof {
        lemma_field_bytes_len(1, FieldV::VInt(AVSTREAM_TYPE_VIDEO));
        lemma_field_bytes_len(2, FieldV::VInt(2));
        lemma_field_bytes_len(4, FieldV::VBytes(cfg@));
        lemma_field_bytes_len(5, FieldV::VInt(1));
        assert(vchan@ =~= video_channel_body(*v));
    }
    let mut d: Vec<u8> = Vec::new();
    push_varint_field(&mut d, 1, chanid as u64);
    push_len_field(&mut d, 3, &vchan);
    proof {
        lemma_field_bytes_len(1, FieldV::VInt(chanid as u64));
        lemma_field_bytes_len(3, FieldV::VBytes(vchan@));
        assert(d@ =~= video_descriptor_bytes(chanid, *v));
    }
    ChannelDescriptor { channel_id: chanid, bytes: d }
}

/// The body of the microphone channel record: an audio stream and the fixed
/// input audio configuration.
pub open spec fn av_input_channel_body() -> Seq<u8> {
    field_bytes(1, FieldV::VInt(AVSTREAM_TYPE_AUDIO)) + field_bytes(
        2,
        FieldV::VBytes(audio_config_body(16000, 16, 1)),
    )
}

/// The descriptor of the microphone channel.
pub open spec fn av_input_descriptor_bytes(chanid: ChannelId) -> Seq<u8> {
    field_bytes(1, FieldV::VInt(chanid as u64)) + field_bytes(
        5,
        FieldV::VBytes(av_input_channel_body()),
    )
}

/// Build the descriptor of the microphone channel.
pub fn av_input_channel_descriptor(chanid: ChannelId) -> (r: ChannelDescriptor)
    ensures
        r.channel_id == chanid,
        r.bytes@ == av_input_descriptor_bytes(chanid),
        r.wf(),
{
    let cfg = build_audio_config(16000, 16, 1);
    let mut inchan: Vec<u8> = Vec::new();
    push_varint_field(&mut inchan, 1, AVSTREAM_TYPE_AUDIO);
    push_len_field(&mut inchan, 2, &cfg);
    proof {
        lemma_field_bytes_len(1, FieldV::VInt(AVSTREAM_TYPE_AUDIO));
        lemma_field_bytes_len(2, FieldV::VBytes(cfg@));
        assert(inchan@ =~= av_input_channel_body());
    }
    let mut d: Vec<u8> = Vec::new();
    push_varint_field(&mut d, 1, chanid as u64);
    push_len_field(&mut d, 5, &inchan);
    proof {
        lemma_field_bytes_len(1, FieldV::VInt(chanid as u64));
        lemma_field_bytes_len(5, FieldV::VBytes(inchan@));
        assert(d@ =~= av_input_descriptor_bytes(chanid));
    }
    ChannelDescriptor { channel_id: chanid, bytes: d }
}

/// The key codes of an input configuration, as repeated varint fields.
pub open spec fn keycode_fields(codes: Seq<u32>) -> Seq<u8>
    decreases codes.len(),
{
    if codes.len() == 0 {
        Seq::empty()
    } else {
        keycode_fields(codes.drop_last()) + field_bytes(1, FieldV::VInt(codes.last() as u64))
    }
}

/// The touch screen record of an input configuration, when one is present.
pub open spec fn touch_fields(touch: Option<(u16, u16)>) -> Seq<u8> {
    match touch {
        Option::Some((w, h)) => field_bytes(
            2,
            FieldV::VBytes(
                field_bytes(1, FieldV::VInt(w as u64)) + field_bytes(2, FieldV::VInt(h as u64)),
            ),
        ),
        Option::None => Seq::empty(),
    }
}

/// The body of the input channel record.
pub open spec fn input_channel_body(ic: InputConfiguration) -> Seq<u8> {
    keycode_fields(ic.keycodes@) + touch_fields(ic.touchscreen)
}

/// The descriptor of the input channel.
pub open spec fn input_descriptor_bytes(chanid: ChannelId, ic: InputConfiguration) -> Seq<u8> {
    field_bytes(1, FieldV::VInt(chanid as u64)) + field_bytes(
        4,
        FieldV::VBytes(input_channel_body(ic)),
    )
}

/// Build the descriptor of the input channel: the supported key codes and,
/// when one is present, the touch screen's size.
pub fn input_channel_descriptor(chanid: ChannelId, ic: &InputConfiguration) -> (r:
    ChannelDescriptor)
    requires
        ic.keycodes@.len() <= 256,
    ensures
        r.channel_id == chanid,
        r.bytes@ == input_descriptor_bytes(chanid, *ic),
        r.wf(),
{
    let mut ichan: Vec<u8> = Vec::new();
    let n = ic.keycodes.len();
    let mut i: usize = 0;
    while i < n
        invariant
            i <= n,
            n == ic.keycodes@.len() <= 256,
            ichan@ == keycode_fields(ic.keycodes@.take(i as int)),
            ichan@.len() <= i * 20,
        decreases n - i,
    {
        let ghost pre = ichan@;
        push_varint_field(&mut ichan, 1, ic.keycodes[i] as u64);
        proof {
            lemma_field_bytes_len(1, FieldV::VInt(ic.keycodes@[i as int] as u64));
            assert(ic.keycodes@.take(i + 1).drop_last() =~= ic.keycodes@.take(i as int));
            assert(ichan@ =~= keycode_fields(ic.keycodes@.take(i + 1)));
        }
        i = i + 1;
    }
    proof {
        assert(ic.keycodes@.take(n as int) =~= ic.keycodes@);
    }
    match &ic.touchscreen {
        Option::Some(wh) => {
            let mut tc: Vec<u8> = Vec::new();
            push_varint_field(&mut tc, 1, wh.0 as u64);
            push_varint_field(&mut tc, 2, wh.1 as u64);
            proof {
                lemma_field_bytes_len(1, FieldV::VInt(wh.0 as u64));
                lemma_field_bytes_len(2, FieldV::VInt(wh.1 as u64));
            }
            push_len_field(&mut ichan, 2, &tc);
            proof {
                lemma_field_bytes_len(2, FieldV::VBytes(tc@));
                assert(ichan@ =~= input_channel_body(*ic));
            }
        },
        Option::None => {
            proof {
                assert(ichan@ =~= input_channel_body(*ic));
            }
        },
    }
    let mut d: Vec<u8> = Vec::new();
    push_varint_field(&mut d, 1, chanid as u64);
    push_len_field(&mut d, 4, &ichan);
    proof {
        lemma_field_bytes_len(1, FieldV::VInt(chanid as u64));
        lemma_field_bytes_len(4, FieldV::VBytes(ichan@));
        assert(d@ =~= input_descriptor_bytes(chanid, *ic));
    }
    ChannelDescriptor { channel_id: chanid, bytes: d }
}

/// The sensor records of a sensor channel, one nested record per type.
pub open spec fn sensor_fields(sensors: Seq<u32>) -> Seq<u8>
    decreases sensors.len(),
{
    if sensors.len() == 0 {
        Seq::empty()
    } else {
        sensor_fields(sensors.drop_last()) + field_bytes(
            1,
            FieldV::VBytes(field_bytes(1, FieldV::VInt(sensors.last() as u64))),
        )
    }
}

/// The descriptor of the sensor channel.
pub open spec fn sensor_descriptor_bytes(chanid: ChannelId, si: SensorInformation) -> Seq<u8> {
    field_bytes(1, FieldV::VInt(chanid as u64)) + field_bytes(
        2,
        FieldV::VBytes(sensor_fields(si.sensors@)),
    )
}

/// Build the descriptor of the sensor channel.
pub fn sensor_channel_descriptor(chanid: ChannelId, si: &SensorInformation) -> (r:
    ChannelDescriptor)
    requires
        si.sensors@.len() <= 256,
    ensures
        r.channel_id == chanid,
        r.bytes@ == sensor_descriptor_bytes(chanid, *si),
        r.wf(),
{
    let mut schan: Vec<u8> = Vec::new();
    let n = si.sensors.len();
    let mut i: usize = 0;
    while i < n
        invariant
            i <= n,
            n == si.sensors@.len() <= 256,
            schan@ == sensor_fields(si.sensors@.take(i as int)),
            schan@.len() <= i * 50,
        decreases n - i,
    {
        let mut one: Vec<u8> = Vec::new();
        push_varint_field(&mut one, 1, si.sensors[i] as u64);
        proof {
            lemma_field_bytes_len(1, FieldV::VInt(si.sensors@[i as int] as u64));
        }
        push_len_field(&mut schan, 1, &one);
        proof {
            lemma_field_bytes_len(1, FieldV::VBytes(one@));
            assert(si.sensors@.take(i + 1).drop_last() =~= si.sensors@.take(i as int));
            assert(schan@ =~= sensor_fields(si.sensors@.take(i + 1)));
        }
        i = i + 1;
    }
    proof {
        assert(si.sensors@.take(n as int) =~= si.sensors@);
    }
    let mut d: Vec<u8> = Vec::new();
    push_varint_field(&mut d, 1, chanid as u64);
    push_len_field(&mut d, 2, &schan);
    proof {
        lemma_field_bytes_len(1, FieldV::VInt(chanid as u64));
        lemma_field_bytes_len(2, FieldV::VBytes(schan@));
        assert(d@ =~= sensor_descriptor_bytes(chanid, *si));
    }
    ChannelDescriptor { channel_id: chanid, bytes: d }
}

/// The body of the bluetooth channel record: the adapter address and the
/// one supported pairing method.
pub open spec fn bluetooth_channel_body(bi: BluetoothInformation) -> Seq<u8> {
    field_bytes(1, FieldV::VBytes(string_bytes(bi.address@))) + field_bytes(
        2,
        FieldV::VInt(BT_PAIRING_METHOD_HFP),
    )
}

/// The descriptor of the bluetooth channel.
pub open spec fn bluetooth_descriptor_bytes(chanid: ChannelId, bi: BluetoothInformation) -> Seq<
    u8,
> {
    field_bytes(1, FieldV::VInt(chanid as u64)) + field_bytes(
        6,
        FieldV::VBytes(bluetooth_channel_body(bi)),
    )
}

/// Build the descriptor of the bluetooth channel.
pub fn bluetooth_channel_descriptor(chanid: ChannelId, bi: &BluetoothInformation) -> (r:
    ChannelDescriptor)
    requires
        string_len_ok(bi.address@),
    ensures
        r.channel_id == chanid,
        r.bytes@ == bluetooth_descriptor_bytes(chanid, *bi),
        r.wf(),
{
    let addr = bi.address.as_str().as_bytes_vec();
    let mut bchan: Vec<u8> = Vec::new();
    push_len_field(&mut bchan, 1, &addr);
    push_varint_field(&mut bchan, 2, BT_PAIRING_METHOD_HFP);
    proof {
        lemma_field_bytes_len(1, FieldV::VBytes(addr@));
        lemma_field_bytes_len(2, FieldV::VInt(BT_PAIRING_METHOD_HFP));
        assert(bchan@ =~= bluetooth_channel_body(*bi));
    }
    let mut d: Vec<u8> = Vec::new();
    push_varint_field(&mut d, 1, chanid as u64);
    push_len_field(&mut d, 6, &bchan);
    proof {
        lemma_field_bytes_len(1, FieldV::VInt(chanid as u64));
        lemma_field_bytes_len(6, FieldV::VBytes(bchan@));
        assert(d@ =~= bluetooth_descriptor_bytes(chanid, *bi));
    }
    ChannelDescriptor { channel_id: chanid, bytes: d }
}

/// The body of the navigation channel record: the update interval, the
/// image turn style, and the image options.
pub open spec fn navigation_channel_body() -> Seq<u8> {
    field_bytes(1, FieldV::VInt(1000)) + field_bytes(2, FieldV::VInt(NAV_TURN_TYPE_IMAGE))
        + field_bytes(
        3,
        FieldV::VBytes(
            field_bytes(1, FieldV::VInt(256)) + field_bytes(2, FieldV::VInt(256)) + field_bytes(
                3,
                FieldV::VInt(16),
            ) + field_bytes(4, FieldV::VInt(255)),
        ),
    )
}

/// The descriptor of the navigation channel.
pub open spec fn navigation_descriptor_bytes(chanid: ChannelId) -> Seq<u8> {
    field_bytes(1, FieldV::VInt(chanid as u64)) + field_bytes(
        8,
        FieldV::VBytes(navigation_channel_body()),
    )
}

/// Build the descriptor of the navigation channel.
pub fn navigation_channel_descriptor(chanid: ChannelId) -> (r: ChannelDescriptor)
    ensures
        r.channel_id == chanid,
        r.bytes@ == navigation_descriptor_bytes(chanid),
        r.wf(),
{
    let mut io: Vec<u8> = Vec::new();
    push_varint_field(&mut io, 1, 256);
    push_varint_field(&mut io, 2, 256);
    push_varint_field(&mut io, 3, 16);
    push_varint_field(&mut io, 4, 255);
    proof {
        lemma_field_bytes_len(1, FieldV::VInt(256));
        lemma_field_bytes_len(2, FieldV::VInt(256));
        lemma_field_bytes_len(3, FieldV::VInt(16));
        lemma_field_bytes_len(4, FieldV::VInt(255));
    }
    let mut nchan: Vec<u8> = Vec::new();
    push_varint_field(&mut nchan, 1, 1000);
    push_varint_field(&mut nchan, 2, NAV_TURN_TYPE_IMAGE);
    push_len_field(&mut nchan, 3, &io);
    proof {
        lemma_field_bytes_len(1, FieldV::VInt(1000));
        lemma_field_bytes_len(2, FieldV::VInt(NAV_TURN_TYPE_IMAGE));
        lemma_field_bytes_len(3, FieldV::VBytes(io@));
        assert(nchan@ =~= navigation_channel_body());
    }
    let mut d: Vec<u8> = Vec::new();
    push_varint_field(&mut d, 1, chanid as u64);
    push_len_field(&mut d, 8, &nchan);
    proof {
        lemma_field_bytes_len(1, FieldV::VInt(chanid as u64));
        lemma_field_bytes_len(8, FieldV::VBytes(nchan@));
        assert(d@ =~= navigation_descriptor_bytes(chanid));
    }
    ChannelDescriptor { channel_id: chanid, bytes: d }
}

/// The descriptor of the media-status channel: an empty record.
pub open spec fn media_status_descriptor_bytes(chanid: ChannelId) -> Seq<u8> {
    field_bytes(1, FieldV::VInt(chanid as u64)) + field_bytes(9, FieldV::VBytes(Seq::empty()))
}

/// Build the descriptor of the media-status channel.
pub fn media_status_channel_descriptor(chanid: ChannelId) -> (r: ChannelDescriptor)
    ensures
        r.channel_id == chanid,
        r.bytes@ == media_status_descriptor_bytes(chanid),
        r.wf(),
{
    let empty: Vec<u8> = Vec::new();
    let mut d: Vec<u8> = Vec::new();
    push_varint_field(&mut d, 1, chanid as u64);
    push_len_field(&mut d, 9, &empty);
    proof {
        lemma_field_bytes_len(1, FieldV::VInt(chanid as u64));
        lemma_field_bytes_len(9, FieldV::VBytes(Seq::<u8>::empty()));
        assert(d@ =~= media_status_descriptor_bytes(chanid));
    }
    ChannelDescriptor { channel_id: chanid, bytes: d }
}

/// The channel records of a discovery response, one nested field per
/// descriptor, in order.
pub open spec fn channel_fields(ds: Seq<ChannelDescriptor>) -> Seq<u8>
    decreases ds.len(),
{
    if ds.len() == 0 {
        Seq::empty()
    } else {
        channel_fields(ds.drop_last()) + field_bytes(1, FieldV::VBytes(ds.last().bytes@))
    }
}

/// Every descriptor of the list fits its discovery field.
pub open spec fn descriptors_wf(ds: Seq<ChannelDescriptor>) -> bool {
    forall|i: int| 0 <= i < ds.len() ==> (#[trigger] ds[i]).wf()
}

/// Every head-unit string fits its discovery field.
pub open spec fn head_unit_wf(u: HeadUnitInfo) -> bool {
    &&& string_len_ok(u.name@)
    &&& string_len_ok(u.car_model@)
    &&& string_len_ok(u.car_year@)
    &&& string_len_ok(u.car_serial@)
    &&& string_len_ok(u.head_manufacturer@)
    &&& string_len_ok(u.head_model@)
    &&& string_len_ok(u.sw_build@)
    &&& string_len_ok(u.sw_version@)
}

/// The head-unit fields of a discovery response, after the channel records.
pub open spec fn head_unit_fields(u: HeadUnitInfo) -> Seq<u8> {
    field_bytes(2, FieldV::VBytes(string_bytes(u.name@))) + field_bytes(
        3,
        FieldV::VBytes(string_bytes(u.car_model@)),
    ) + field_bytes(4, FieldV::VBytes(string_bytes(u.car_year@))) + field_bytes(
        5,
        FieldV::VBytes(string_bytes(u.car_serial@)),
    ) + field_bytes(
        6,
        FieldV::VInt(
            if u.left_hand {
                1
            } else {
                0
            },
        ),
    ) + field_bytes(7, FieldV::VBytes(string_bytes(u.head_manufacturer@))) + field_bytes(
        8,
        FieldV::VBytes(string_bytes(u.head_model@)),
    ) + field_bytes(9, FieldV::VBytes(string_bytes(u.sw_build@))) + field_bytes(
        10,
        FieldV::VBytes(string_bytes(u.sw_version@)),
    ) + field_bytes(
        11,
        FieldV::VInt(
            if u.native_media {
                1
            } else {
                0
            },
        ),
    ) + (match u.hide_clock {
        Option::Some(h) => field_bytes(
            12,
            FieldV::VInt(
                if h {
                    1
                } else {
                    0
                },
            ),
        ),
        Option::None => Seq::empty(),
    })
}

/// The body of a service discovery response: the channel records in the
/// order their handlers stand in the table, then the head unit's fields.
pub open spec fn service_discovery_body(u: HeadUnitInfo, ds: Seq<ChannelDescriptor>) -> Seq<u8> {
    channel_fields(ds) + head_unit_fields(u)
}

/// Build the body of a service discovery response.
#[verifier::rlimit(100)]
#[verifier::spinoff_prover]
pub fn build_service_discovery_body(u: &HeadUnitInfo, ds: &Vec<ChannelDescriptor>) -> (r: Vec<u8>)
    requires
        head_unit_wf(*u),
        descriptors_wf(ds@),
        ds@.len() <= 64,
    ensures
        r@ == service_discovery_body(*u, ds@),
        r@.len() <= 0xFFFFFF,
{
    let mut b: Vec<u8> = Vec::new();
    let n = ds.len();
    let mut i: usize = 0;
    while i < n
        invariant
            i <= n,
            n == ds@.len() <= 64,
            descriptors_wf(ds@),
            b@ == channel_fields(ds@.take(i as int)),
            b@.len() <= i * 0x4020,
        decreases n - i,
    {
        push_len_field(&mut b, 1, &ds[i].bytes);
        proof {
            assert(ds@[i as int].wf());
            lemma_field_bytes_len(1, FieldV::VBytes(ds@[i as int].bytes@));
            assert(ds@.take(i + 1).drop_last() =~= ds@.take(i as int));
            assert(ds@.take(i + 1).last() == ds@[i as int]);
            assert(b@ =~= channel_fields(ds@.take(i + 1)));
        }
        i = i + 1;
    }
    proof {
        assert(ds@.take(n as int) =~= ds@);
    }
    let name = u.name.as_str().as_bytes_vec();
    push_len_field(&mut b, 2, &name);
    let car_model = u.car_model.as_str().as_bytes_vec();
    push_len_field(&mut b, 3, &car_model);
    let car_year = u.car_year.as_str().as_bytes_vec();
    push_len_field(&mut b, 4, &car_year);
    let car_serial = u.car_serial.as_str().as_bytes_vec();
    push_len_field(&mut b, 5, &car_serial);
    push_varint_field(
        &mut b,
        6,
        if u.left_hand {
            1
        } else {
            0
        },
    );
    let manu = u.head_manufacturer.as_str().as_bytes_vec();
    push_len_field(&mut b, 7, &manu);
    let model = u.head_model.as_str().as_bytes_vec();
    push_len_field(&mut b, 8, &model);
    let sw_build = u.sw_build.as_str().as_bytes_vec();
    push_len_field(&mut b, 9, &sw_build);
    let sw_version = u.sw_version.as_str().as_bytes_vec();
    push_len_field(&mut b, 10, &sw_version);
    push_varint_field(
        &mut b,
        11,
        if u.native_media {
            1
        } else {
            0
        },
    );
    match u.hide_clock {
        Option::Some(h) => {
            push_varint_field(
                &mut b,
                12,
                if h {
                    1
                } else {
                    0
                },
            );
        },
        Option::None => (),
    }
    proof {
        lemma_field_bytes_len(2, FieldV::VBytes(string_bytes(u.name@)));
        lemma_field_bytes_len(3, FieldV::VBytes(string_bytes(u.car_model@)));
        lemma_field_bytes_len(4, FieldV::VBytes(string_bytes(u.car_year@)));
        lemma_field_bytes_len(5, FieldV::VBytes(string_bytes(u.car_serial@)));
        lemma_field_bytes_len(
            6,
            FieldV::VInt(
                if u.left_hand {
                    1
                } else {
                    0
                },
            ),
        );
        lemma_field_bytes_len(7, FieldV::VBytes(string_bytes(u.head_manufacturer@)));
        lemma_field_bytes_len(8, FieldV::VBytes(string_bytes(u.head_model@)));
        lemma_field_bytes_len(9, FieldV::VBytes(string_bytes(u.sw_build@)));
        lemma_field_bytes_len(10, FieldV::VBytes(string_bytes(u.sw_version@)));
        lemma_field_bytes_len(
            11,
            FieldV::VInt(
                if u.native_media {
                    1
                } else {
                    0
                },
            ),
        );
        match u.hide_clock {
            Option::Some(h) => {
                lemma_field_bytes_len(
                    12,
                    FieldV::VInt(
                        if h {
                            1
                        } else {
                            0
                        },
                    ),
                );
            },
            Option::None => (),
        }
        assert(b@ =~= service_discovery_body(*u, ds@));
    }
    b
}

} // verus!
