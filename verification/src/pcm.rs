//! PCM audio: channel formats, the audio descriptor and MCA label summaries.
use vstd::prelude::*;

use crate::sys;
use crate::Rational;

verus! {

/// PCM channel format.
#[derive(Debug, Clone, Copy, PartialEq, Eq, Structural)]
pub enum ChannelFormat {
    /// No channel configuration signalled.
    Unconfigured,
    /// 5.1
    Cfg1,
    /// 6.1
    Cfg2,
    /// 7.1 SDDS
    Cfg3,
    /// Wild Track
    Cfg4,
    /// 7.1 DS
    Cfg5,
    /// MCA labels
    Cfg6,
}

impl ChannelFormat {
    /// The format's number in the C interface.
    pub open spec fn spec_code(self) -> i32 {
        match self {
            ChannelFormat::Unconfigured => 0,
            ChannelFormat::Cfg1 => 1,
            ChannelFormat::Cfg2 => 2,
            ChannelFormat::Cfg3 => 3,
            ChannelFormat::Cfg4 => 4,
            ChannelFormat::Cfg5 => 5,
            ChannelFormat::Cfg6 => 6,
        }
    }

    /// The format a C interface number stands for; numbers outside 1 to 6
    /// read as `Unconfigured`.
    pub open spec fn spec_from_code(code: i32) -> ChannelFormat {
        if code == 1 {
            ChannelFormat::Cfg1
        } else if code == 2 {
            ChannelFormat::Cfg2
        } else if code == 3 {
            ChannelFormat::Cfg3
        } else if code == 4 {
            ChannelFormat::Cfg4
        } else if code == 5 {
            ChannelFormat::Cfg5
        } else if code == 6 {
            ChannelFormat::Cfg6
        } else {
            ChannelFormat::Unconfigured
        }
    }

    pub fn code(self) -> (code: i32)
        ensures
            code == self.spec_code(),
    {
        match self {
            ChannelFormat::Unconfigured => 0,
            ChannelFormat::Cfg1 => 1,
            ChannelFormat::Cfg2 => 2,
            ChannelFormat::Cfg3 => 3,
            ChannelFormat::Cfg4 => 4,
            ChannelFormat::Cfg5 => 5,
            ChannelFormat::Cfg6 => 6,
        }
    }

    pub fn from_code(code: i32) -> (format: ChannelFormat)
        ensures
            format == ChannelFormat::spec_from_code(code),
    {
        match code {
            1 => ChannelFormat::Cfg1,
            2 => ChannelFormat::Cfg2,
            3 => ChannelFormat::Cfg3,
            4 => ChannelFormat::Cfg4,
            5 => ChannelFormat::Cfg5,
            6 => ChannelFormat::Cfg6,
            _ => ChannelFormat::Unconfigured,
        }
    }
}

/// PCM audio descriptor.
#[derive(Debug, Clone, Copy)]
pub struct AudioDescriptor {
    pub edit_rate: Rational,
    pub audio_sampling_rate: Rational,
    pub locked: bool,
    pub channel_count: u32,
    pub quantization_bits: u32,
    pub block_align: u32,
    pub avg_bps: u32,
    pub linked_track_id: u32,
    pub container_duration: u32,
    pub channel_format: ChannelFormat,
}

impl AudioDescriptor {
    /// The C record of this descriptor.
    pub open spec fn spec_to_ffi(self) -> sys::AsdcpAudioDescriptor {
        sys::AsdcpAudioDescriptor {
            edit_rate: self.edit_rate.spec_to_ffi(),
            audio_sampling_rate: self.audio_sampling_rate.spec_to_ffi(),
            locked: crate::c_flag(self.locked) as u32,
            channel_count: self.channel_count,
            quantization_bits: self.quantization_bits,
            block_align: self.block_align,
            avg_bps: self.avg_bps,
            linked_track_id: self.linked_track_id,
            container_duration: self.container_duration,
            channel_format: self.channel_format.spec_code(),
        }
    }

    /// The descriptor a C record carries.
    pub open spec fn spec_from_ffi(ffi: sys::AsdcpAudioDescriptor) -> AudioDescriptor {
        AudioDescriptor {
            edit_rate: Rational::spec_from_ffi(ffi.edit_rate),
            audio_sampling_rate: Rational::spec_from_ffi(ffi.audio_sampling_rate),
            locked: crate::c_bool(ffi.locked as int),
            channel_count: ffi.channel_count,
            quantization_bits: ffi.quantization_bits,
            block_align: ffi.block_align,
            avg_bps: ffi.avg_bps,
            linked_track_id: ffi.linked_track_id,
            container_duration: ffi.container_duration,
            channel_format: ChannelFormat::spec_from_code(ffi.channel_format),
        }
    }

    pub fn to_ffi(&self) -> (ffi: sys::AsdcpAudioDescriptor)
        ensures
            ffi == self.spec_to_ffi(),
    {
        sys::AsdcpAudioDescriptor {
            edit_rate: self.edit_rate.to_ffi(),
            audio_sampling_rate: self.audio_sampling_rate.to_ffi(),
            locked: if self.locked {
                1
            } else {
                0
            },
            channel_count: self.channel_count,
            quantization_bits: self.quantization_bits,
            block_align: self.block_align,
            avg_bps: self.avg_bps,
            linked_track_id: self.linked_track_id,
            container_duration: self.container_duration,
            channel_format: self.channel_format.code(),
        }
    }

    pub fn from_ffi(ffi: &sys::AsdcpAudioDescriptor) -> (desc: AudioDescriptor)
        ensures
            desc == AudioDescriptor::spec_from_ffi(*ffi),
    {
        AudioDescriptor {
            edit_rate: Rational::from_ffi(&ffi.edit_rate),
            audio_sampling_rate: Rational::from_ffi(&ffi.audio_sampling_rate),
            locked: ffi.locked != 0,
            channel_count: ffi.channel_count,
            quantization_bits: ffi.quantization_bits,
            block_align: ffi.block_align,
            avg_bps: ffi.avg_bps,
            linked_track_id: ffi.linked_track_id,
            container_duration: ffi.container_duration,
            channel_format: ChannelFormat::from_code(ffi.channel_format),
        }
    }
}

/// An audio descriptor read back from the C record it was written as is the
/// descriptor itself, its channel format included.
pub proof fn lemma_audio_descriptor_roundtrip(desc: AudioDescriptor)
    ensures
        AudioDescriptor::spec_from_ffi(desc.spec_to_ffi()) == desc,
{
}

/// The audio record carries each item in the field of the same name: the
/// rates as rationals of the same numerator and denominator, the locked flag
/// as 1 or 0, the channel count in `channel_count`, the sample bit depth in
/// `quantization_bits`, and so on; reading takes each item from the field of
/// the same name, a nonzero locked flag as true.
pub proof fn lemma_audio_descriptor_record_fields(desc: AudioDescriptor, ffi: sys::AsdcpAudioDescriptor)
    ensures
        desc.spec_to_ffi().edit_rate.numerator == desc.edit_rate.numerator,
        desc.spec_to_ffi().edit_rate.denominator == desc.edit_rate.denominator,
        desc.spec_to_ffi().audio_sampling_rate.numerator == desc.audio_sampling_rate.numerator,
        desc.spec_to_ffi().audio_sampling_rate.denominator == desc.audio_sampling_rate.denominator,
        desc.spec_to_ffi().locked == (if desc.locked { 1u32 } else { 0u32 }),
        desc.spec_to_ffi().channel_count == desc.channel_count,
        desc.spec_to_ffi().quantization_bits == desc.quantization_bits,
        desc.spec_to_ffi().block_align == desc.block_align,
        desc.spec_to_ffi().avg_bps == desc.avg_bps,
        desc.spec_to_ffi().linked_track_id == desc.linked_track_id,
        desc.spec_to_ffi().container_duration == desc.container_duration,
        desc.spec_to_ffi().channel_format == desc.channel_format.spec_code(),
        AudioDescriptor::spec_from_ffi(ffi).edit_rate.numerator == ffi.edit_rate.numerator,
        AudioDescriptor::spec_from_ffi(ffi).edit_rate.denominator == ffi.edit_rate.denominator,
        AudioDescriptor::spec_from_ffi(ffi).audio_sampling_rate.numerator
            == ffi.audio_sampling_rate.numerator,
        AudioDescriptor::spec_from_ffi(ffi).audio_sampling_rate.denominator
            == ffi.audio_sampling_rate.denominator,
        AudioDescriptor::spec_from_ffi(ffi).locked == (ffi.locked != 0),
        AudioDescriptor::spec_from_ffi(ffi).channel_count == ffi.channel_count,
        AudioDescriptor::spec_from_ffi(ffi).quantization_bits == ffi.quantization_bits,
        AudioDescriptor::spec_from_ffi(ffi).block_align == ffi.block_align,
        AudioDescriptor::spec_from_ffi(ffi).avg_bps == ffi.avg_bps,
        AudioDescriptor::spec_from_ffi(ffi).linked_track_id == ffi.linked_track_id,
        AudioDescriptor::spec_from_ffi(ffi).container_duration == ffi.container_duration,
        AudioDescriptor::spec_from_ffi(ffi).channel_format == ChannelFormat::spec_from_code(
            ffi.channel_format,
        ),
{
}

/// The channel formats carry asdcplib's numbers: none 0, then configurations
/// 1 to 6 as 1 to 6; those numbers read back as those formats, every other
/// number as `Unconfigured`.
pub proof fn lemma_channel_format_codes(code: i32)
    ensures
        ChannelFormat::Unconfigured.spec_code() == 0,
        ChannelFormat::Cfg1.spec_code() == 1,
        ChannelFormat::Cfg2.spec_code() == 2,
        ChannelFormat::Cfg3.spec_code() == 3,
        ChannelFormat::Cfg4.spec_code() == 4,
        ChannelFormat::Cfg5.spec_code() == 5,
        ChannelFormat::Cfg6.spec_code() == 6,
        ChannelFormat::spec_from_code(1) == ChannelFormat::Cfg1,
        ChannelFormat::spec_from_code(2) == ChannelFormat::Cfg2,
        ChannelFormat::spec_from_code(3) == ChannelFormat::Cfg3,
        ChannelFormat::spec_from_code(4) == ChannelFormat::Cfg4,
        ChannelFormat::spec_from_code(5) == ChannelFormat::Cfg5,
        ChannelFormat::spec_from_code(6) == ChannelFormat::Cfg6,
        (code < 1 || code > 6) ==> ChannelFormat::spec_from_code(code) == ChannelFormat::Unconfigured,
{
}

/// MCA label subdescriptors found in a PCM MXF header.
#[derive(Debug, Clone, Copy, PartialEq, Eq, Structural)]
pub struct McaLabelSummary {
    /// Number of AudioChannelLabelSubDescriptors.
    pub channel_labels: u32,
    /// Number of SoundfieldGroupLabelSubDescriptors.
    pub soundfield_groups: u32,
    /// Whether the WaveAudioDescriptor carries the MCA ChannelAssignment UL.
    pub has_mca_channel_assignment: bool,
}

impl McaLabelSummary {
    /// The summary of the label counts and the ChannelAssignment flag the C
    /// library reports.
    pub fn from_counts(channel_labels: u32, soundfield_groups: u32, has_assignment: i32) -> (summary:
        McaLabelSummary)
        ensures
            summary.channel_labels == channel_labels,
            summary.soundfield_groups == soundfield_groups,
            summary.has_mca_channel_assignment == (has_assignment != 0),
    {
        McaLabelSummary {
            channel_labels,
            soundfield_groups,
            has_mca_channel_assignment: has_assignment != 0,
        }
    }
}

} // verus!
