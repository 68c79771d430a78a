//! The media audio channel: 16-bit, two-channel, 48 kHz output.

use vstd::prelude::*;

use crate::audio::{audio_receive_data, audio_step_ok};
use crate::descriptors::{audio_channel_descriptor, audio_descriptor_bytes, ChannelDescriptor};
use crate::ids::AUDIO_TYPE_MEDIA;
use crate::session::HandlerResponse;
use crate::{AudioChannelType, ChannelId, FrameIoError};

verus! {

/// The handler of the media audio channel.
pub struct MediaAudioChannelHandler {}

impl MediaAudioChannelHandler {
    /// The descriptor the media audio channel contributes.
    pub fn build_channel(&self, chanid: ChannelId) -> (r: Option<ChannelDescriptor>)
        ensures
            r matches Some(d) && d.channel_id == chanid && d.bytes@ == audio_descriptor_bytes(
                chanid,
                AUDIO_TYPE_MEDIA,
                48000,
                16,
                2,
            ) && d.wf(),
    {
        Option::Some(audio_channel_descriptor(chanid, AUDIO_TYPE_MEDIA, 48000, 16, 2))
    }

    /// Process one reassembled payload of the media audio channel.
    pub fn receive_data(&self, channel: ChannelId, data: &Vec<u8>) -> (r: Result<
        HandlerResponse,
        FrameIoError,
    >)
        ensures
            audio_step_ok(AudioChannelType::Media, channel, data@, r),
    {
        audio_receive_data(AudioChannelType::Media, channel, data)
    }
}

} // verus!
