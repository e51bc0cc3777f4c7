use asdcplib::as02::jp2k::{
    optional, prefix, Jpeg2000PictureSubDescriptor, RgbaDescriptor, RgbaEssenceDescriptor,
};
use asdcplib::as02::pcm::SoundfieldGroupProperties;
use asdcplib::atmos::AtmosDescriptor;
use asdcplib::error::{c_string, read_outcome, sized_read_outcome};
use asdcplib::jp2k::{
    capability_count_is_valid, picture_essence_coding_for_rsize, CodestreamHeader, HdrMetadata,
    ImageComponent, PictureDescriptor, StereoscopicPhase, COLOR_PRIMARIES_BT2020,
    COLOR_PRIMARIES_P3D65, PICTURE_ESSENCE_CODING_BROADCAST_PROFILE_1,
    PICTURE_ESSENCE_CODING_CINEMA_2K, PICTURE_ESSENCE_CODING_CINEMA_4K,
    PICTURE_ESSENCE_CODING_IMF_2K_LOSSY, PICTURE_ESSENCE_CODING_IMF_2K_REVERSIBLE,
    PICTURE_ESSENCE_CODING_IMF_4K_LOSSY, PICTURE_ESSENCE_CODING_IMF_4K_LOSSY_6_3,
    PICTURE_ESSENCE_CODING_IMF_4K_REVERSIBLE, PICTURE_ESSENCE_CODING_IMF_8K_LOSSY,
    PICTURE_ESSENCE_CODING_IMF_8K_REVERSIBLE, TRANSFER_CHARACTERISTIC_ST2084,
};
use asdcplib::pcm::{AudioDescriptor, ChannelFormat, McaLabelSummary};
use asdcplib::sys;
use asdcplib::timed_text::{resource_tables, AncillaryResourceInfo, MimeType, TimedTextDescriptor};
use asdcplib::{check, essence_type_outcome, EssenceType, Error, LabelSet, Rational, WriterInfo};

fn zero_rational() -> sys::AsdcpRational {
    sys::AsdcpRational {
        numerator: 0,
        denominator: 0,
    }
}

fn zero_image_component() -> sys::AsdcpImageComponent {
    sys::AsdcpImageComponent {
        ssize: 0,
        x_rsize: 0,
        y_rsize: 0,
    }
}

fn zero_coding_style_default() -> sys::AsdcpCodingStyleDefault {
    sys::AsdcpCodingStyleDefault {
        scod: 0,
        progression_order: 0,
        number_of_layers: [0; 2],
        multi_component_transform: 0,
        decomposition_levels: 0,
        codeblock_width: 0,
        codeblock_height: 0,
        codeblock_style: 0,
        transformation: 0,
        precinct_sizes: [0; sys::ASDCP_JP2K_MAX_PRECINCT_SIZES],
    }
}

fn zero_quantization_default() -> sys::AsdcpQuantizationDefault {
    sys::AsdcpQuantizationDefault {
        sqcd: 0,
        spqcd: [0; sys::ASDCP_JP2K_MAX_DEFAULTS],
        spqcd_length: 0,
    }
}

fn zero_extended_capabilities() -> sys::AsdcpExtendedCapabilities {
    sys::AsdcpExtendedCapabilities {
        pcap: 0,
        capability_count: 0,
        ccap: [0; sys::ASDCP_JP2K_MAX_CAPABILITIES],
    }
}

fn zero_codestream_header() -> sys::AsdcpCodestreamHeader {
    sys::AsdcpCodestreamHeader {
        rsize: 0,
        xsize: 0,
        ysize: 0,
        x_osize: 0,
        y_osize: 0,
        xt_size: 0,
        yt_size: 0,
        xt_osize: 0,
        yt_osize: 0,
        csize: 0,
        image_components: [zero_image_component(); sys::ASDCP_JP2K_MAX_COMPONENTS],
        coding_style_default: zero_coding_style_default(),
        quantization_default: zero_quantization_default(),
        extended_capabilities: zero_extended_capabilities(),
    }
}

fn zero_hdr_metadata() -> sys::AsdcpHdrMetadata {
    sys::AsdcpHdrMetadata {
        has_transfer_characteristic: 0,
        transfer_characteristic: [0; 16],
        has_color_primaries: 0,
        color_primaries: [0; 16],
        has_mastering_display_primaries: 0,
        mastering_display_primaries: [0; 6],
        has_mastering_display_white_point: 0,
        mastering_display_white_point: [0; 2],
        has_mastering_display_max_luminance: 0,
        mastering_display_max_luminance: 0,
        has_mastering_display_min_luminance: 0,
        mastering_display_min_luminance: 0,
    }
}

fn zero_rgba_essence_descriptor() -> sys::AsdcpRgbaEssenceDescriptor {
    sys::AsdcpRgbaEssenceDescriptor {
        instance_id: [0; 16],
        has_generation_id: 0,
        generation_id: [0; 16],
        locator_count: 0,
        locators: [[0; 16]; sys::ASDCP_MAX_LOCATORS],
        sub_descriptor_count: 0,
        sub_descriptors: [[0; 16]; sys::ASDCP_MAX_SUB_DESCRIPTORS],
        has_linked_track_id: 0,
        linked_track_id: 0,
        sample_rate: zero_rational(),
        has_container_duration: 0,
        container_duration: 0,
        essence_container: [0; 16],
        has_codec: 0,
        codec: [0; 16],
        has_signal_standard: 0,
        signal_standard: 0,
        frame_layout: 0,
        stored_width: 0,
        stored_height: 0,
        has_stored_f2_offset: 0,
        stored_f2_offset: 0,
        has_sampled_width: 0,
        sampled_width: 0,
        has_sampled_height: 0,
        sampled_height: 0,
        has_sampled_x_offset: 0,
        sampled_x_offset: 0,
        has_sampled_y_offset: 0,
        sampled_y_offset: 0,
        has_display_height: 0,
        display_height: 0,
        has_display_width: 0,
        display_width: 0,
        has_display_x_offset: 0,
        display_x_offset: 0,
        has_display_y_offset: 0,
        display_y_offset: 0,
        has_display_f2_offset: 0,
        display_f2_offset: 0,
        aspect_ratio: zero_rational(),
        has_active_format_descriptor: 0,
        active_format_descriptor: 0,
        has_alpha_transparency: 0,
        alpha_transparency: 0,
        has_image_alignment_offset: 0,
        image_alignment_offset: 0,
        has_image_start_offset: 0,
        image_start_offset: 0,
        has_image_end_offset: 0,
        image_end_offset: 0,
        has_field_dominance: 0,
        field_dominance: 0,
        picture_essence_coding: [0; 16],
        has_coding_equations: 0,
        coding_equations: [0; 16],
        alternative_center_cut_count: 0,
        alternative_center_cuts: [[0; 16]; sys::ASDCP_MAX_ALTERNATIVE_CENTER_CUTS],
        has_active_width: 0,
        active_width: 0,
        has_active_height: 0,
        active_height: 0,
        has_active_x_offset: 0,
        active_x_offset: 0,
        has_active_y_offset: 0,
        active_y_offset: 0,
        has_video_line_map: 0,
        video_line_map: [0; 2],
        hdr: zero_hdr_metadata(),
        has_component_max_ref: 0,
        component_max_ref: 0,
        has_component_min_ref: 0,
        component_min_ref: 0,
        has_alpha_min_ref: 0,
        alpha_min_ref: 0,
        has_alpha_max_ref: 0,
        alpha_max_ref: 0,
        has_scanning_direction: 0,
        scanning_direction: 0,
        pixel_layout: [0; 16],
    }
}

fn zero_jpeg2000_sub_descriptor() -> sys::AsdcpJpeg2000SubDescriptor {
    sys::AsdcpJpeg2000SubDescriptor {
        instance_id: [0; 16],
        has_generation_id: 0,
        generation_id: [0; 16],
        rsize: 0,
        xsize: 0,
        ysize: 0,
        x_osize: 0,
        y_osize: 0,
        xt_size: 0,
        yt_size: 0,
        xt_osize: 0,
        yt_osize: 0,
        csize: 0,
        has_picture_component_sizing: 0,
        picture_component_sizing: [0; sys::ASDCP_MAX_COMPONENT_SIZING],
        picture_component_sizing_length: 0,
        has_coding_style_default: 0,
        coding_style_default: [0; sys::ASDCP_MAX_CODING_STYLE],
        coding_style_default_length: 0,
        has_quantization_default: 0,
        quantization_default: [0; sys::ASDCP_MAX_QUANTIZATION],
        quantization_default_length: 0,
        has_j2c_layout: 0,
        j2c_layout: [0; 16],
        has_extended_capabilities: 0,
        pcap: 0,
        capability_count: 0,
        ccap: [0; sys::ASDCP_JP2K_MAX_CAPABILITIES],
        has_profile: 0,
        profile: [0; sys::ASDCP_MAX_PROFILES],
        profile_count: 0,
        has_corresponding_profile: 0,
        corresponding_profile: [0; sys::ASDCP_MAX_PROFILES],
        corresponding_profile_count: 0,
    }
}


/// A 3-component, 12-bit codestream record with a short QCD and no CAP marker.
fn cinema_codestream_record() -> sys::AsdcpCodestreamHeader {
    let mut ffi = zero_codestream_header();
    ffi.rsize = 0x0003;
    ffi.xsize = 64;
    ffi.ysize = 64;
    ffi.xt_size = 64;
    ffi.yt_size = 64;
    ffi.csize = 3;
    for slot in ffi.image_components.iter_mut().take(3) {
        *slot = sys::AsdcpImageComponent { ssize: 11, x_rsize: 1, y_rsize: 1 };
    }
    ffi.coding_style_default.scod = 1;
    ffi.coding_style_default.progression_order = 4;
    ffi.coding_style_default.number_of_layers = [0x01, 0x02];
    ffi.coding_style_default.decomposition_levels = 5;
    ffi.coding_style_default.precinct_sizes[0] = 0x77;
    ffi.quantization_default.sqcd = 0x22;
    ffi.quantization_default.spqcd[..5].copy_from_slice(&[9, 8, 7, 6, 5]);
    ffi.quantization_default.spqcd_length = 5;
    ffi.extended_capabilities.capability_count = sys::ASDCP_JP2K_NO_EXTENDED_CAPABILITIES;
    ffi
}

#[test]
fn check_reads_negative_codes_as_failures() {
    assert_eq!(check(0), Ok(()));
    assert_eq!(check(1), Ok(()));
    assert_eq!(check(-1), Err(Error::AsdcpError(-1)));
    assert_eq!(check(-14), Err(Error::AsdcpError(-14)));
}

#[test]
fn read_outcome_reports_the_size_on_success() {
    assert_eq!(read_outcome(0, 4096), Ok(4096));
    assert_eq!(read_outcome(-12, 4096), Err(Error::AsdcpError(-12)));
}

#[test]
fn short_buffer_is_never_a_success() {
    assert_eq!(
        sized_read_outcome(sys::RESULT_SMALLBUF, 430, 16),
        Err(Error::BufferTooSmall { needed: 430, capacity: 16 })
    );
    assert_eq!(sized_read_outcome(0, 430, 430), Ok(430));
    assert_eq!(sized_read_outcome(-1, 0, 430), Err(Error::AsdcpError(-1)));
}

#[test]
fn c_string_terminates_or_refuses_a_nul() {
    assert_eq!(c_string("file.mxf", "null byte in filename"), Ok(b"file.mxf\0".to_vec()));
    assert_eq!(c_string("", "null byte"), Ok(vec![0]));
    assert_eq!(
        c_string("bad\0name.mxf", "null byte in filename"),
        Err(Error::InvalidArgument("null byte in filename"))
    );
}

#[test]
fn essence_type_outcome_maps_the_code_or_fails() {
    assert_eq!(essence_type_outcome(0, 2), Ok(EssenceType::Jpeg2000));
    assert_eq!(essence_type_outcome(0, 12), Ok(EssenceType::As02TimedText));
    assert_eq!(essence_type_outcome(0, 0), Ok(EssenceType::Unknown));
    assert_eq!(essence_type_outcome(-16, 2), Err(Error::AsdcpError(-16)));
}

#[test]
fn label_set_codes_roundtrip() {
    for set in [LabelSet::Unknown, LabelSet::Interop, LabelSet::Smpte] {
        assert_eq!(LabelSet::from_code(set.code()), set);
    }
    assert_eq!(LabelSet::Interop.code(), 1);
    assert_eq!(LabelSet::Smpte.code(), 2);
    assert_eq!(LabelSet::from_code(7), LabelSet::Unknown);
}

#[test]
fn writer_info_roundtrips_through_its_record() {
    let info = WriterInfo {
        product_uuid: [1; 16],
        asset_uuid: [2; 16],
        context_id: [3; 16],
        cryptographic_key_id: [4; 16],
        encrypted_essence: true,
        uses_hmac: false,
        label_set: LabelSet::Interop,
    };
    let ffi = info.to_ffi();
    assert_eq!(ffi.encrypted_essence, 1);
    assert_eq!(ffi.uses_hmac, 0);
    assert_eq!(ffi.label_set_type, 1);
    let back = WriterInfo::from_ffi(&ffi);
    assert_eq!(back.product_uuid, [1; 16]);
    assert_eq!(back.asset_uuid, [2; 16]);
    assert_eq!(back.context_id, [3; 16]);
    assert_eq!(back.cryptographic_key_id, [4; 16]);
    assert!(back.encrypted_essence);
    assert!(!back.uses_hmac);
    assert_eq!(back.label_set, LabelSet::Interop);
}

#[test]
fn writer_info_reads_any_nonzero_flag_as_true() {
    let mut ffi = WriterInfo::default().to_ffi();
    ffi.encrypted_essence = 5;
    ffi.uses_hmac = -1;
    ffi.label_set_type = 42;
    let info = WriterInfo::from_ffi(&ffi);
    assert!(info.encrypted_essence);
    assert!(info.uses_hmac);
    assert_eq!(info.label_set, LabelSet::Unknown);
}

#[test]
fn rational_roundtrips_and_rates() {
    let r = Rational::new(24000, 1001);
    let ffi = r.to_ffi();
    assert_eq!((ffi.numerator, ffi.denominator), (24000, 1001));
    assert_eq!(Rational::from_ffi(&ffi), r);
    assert_eq!(Rational::edit_rate_30(), Rational::new(30, 1));
    assert_eq!(Rational::edit_rate_60(), Rational::new(60, 1));
    assert_eq!(Rational::sample_rate_96k(), Rational::new(96000, 1));
}

#[test]
fn picture_essence_coding_follows_the_rsize() {
    assert_eq!(picture_essence_coding_for_rsize(0x0536), PICTURE_ESSENCE_CODING_IMF_4K_LOSSY_6_3);
    assert_eq!(picture_essence_coding_for_rsize(0x0003), PICTURE_ESSENCE_CODING_CINEMA_2K);
    assert_eq!(picture_essence_coding_for_rsize(0x0004), PICTURE_ESSENCE_CODING_CINEMA_4K);
    assert_eq!(picture_essence_coding_for_rsize(0x0417), PICTURE_ESSENCE_CODING_IMF_2K_LOSSY);
    assert_eq!(picture_essence_coding_for_rsize(0x0611), PICTURE_ESSENCE_CODING_IMF_8K_LOSSY);
    assert_eq!(picture_essence_coding_for_rsize(0x0000), PICTURE_ESSENCE_CODING_BROADCAST_PROFILE_1);
    assert_eq!(picture_essence_coding_for_rsize(0x0500), PICTURE_ESSENCE_CODING_IMF_4K_LOSSY);
    assert_eq!(picture_essence_coding_for_rsize(0x0537), PICTURE_ESSENCE_CODING_IMF_4K_LOSSY);
    assert_eq!(picture_essence_coding_for_rsize(0x0711), PICTURE_ESSENCE_CODING_IMF_2K_REVERSIBLE);
    assert_eq!(picture_essence_coding_for_rsize(0x08ff), PICTURE_ESSENCE_CODING_IMF_4K_REVERSIBLE);
    assert_eq!(picture_essence_coding_for_rsize(0x0900), PICTURE_ESSENCE_CODING_IMF_8K_REVERSIBLE);
    assert_eq!(picture_essence_coding_for_rsize(0x0a00), PICTURE_ESSENCE_CODING_BROADCAST_PROFILE_1);
    assert_eq!(picture_essence_coding_for_rsize(0x0005), PICTURE_ESSENCE_CODING_BROADCAST_PROFILE_1);
    assert_eq!(
        PICTURE_ESSENCE_CODING_IMF_4K_LOSSY_6_3,
        [
            0x06, 0x0e, 0x2b, 0x34, 0x04, 0x01, 0x01, 0x0d, 0x04, 0x01, 0x02, 0x02, 0x03, 0x01,
            0x03, 0x12
        ]
    );
}

#[test]
fn image_component_depth_and_sign() {
    let unsigned_12 = ImageComponent { ssize: 11, x_rsize: 1, y_rsize: 1 };
    assert_eq!(unsigned_12.bit_depth(), 12);
    assert!(!unsigned_12.is_signed());
    let signed_12 = ImageComponent { ssize: 0x8b, x_rsize: 1, y_rsize: 1 };
    assert_eq!(signed_12.bit_depth(), 12);
    assert!(signed_12.is_signed());
    let widest = ImageComponent { ssize: 0xff, x_rsize: 2, y_rsize: 2 };
    assert_eq!(widest.bit_depth(), 128);
    assert!(widest.is_signed());
    assert_eq!(ImageComponent { ssize: 0, x_rsize: 1, y_rsize: 1 }.bit_depth(), 1);
}

#[test]
fn hdr_metadata_roundtrips_through_its_record() {
    let hdr = HdrMetadata {
        transfer_characteristic: Some(TRANSFER_CHARACTERISTIC_ST2084),
        color_primaries: Some(COLOR_PRIMARIES_P3D65),
        mastering_display_primaries: Some([[34000, 16000], [13250, 34500], [7500, 3000]]),
        mastering_display_white_point: Some([15635, 16450]),
        mastering_display_max_luminance: Some(48_0000),
        mastering_display_min_luminance: Some(50),
    };
    let ffi = hdr.to_ffi();
    assert_eq!(ffi.mastering_display_primaries, [34000, 16000, 13250, 34500, 7500, 3000]);
    assert_eq!(ffi.has_color_primaries, 1);
    assert_eq!(HdrMetadata::from_ffi(&ffi), hdr);

    let partial = HdrMetadata {
        color_primaries: Some(COLOR_PRIMARIES_BT2020),
        mastering_display_min_luminance: Some(1),
        ..HdrMetadata::default()
    };
    let ffi = partial.to_ffi();
    assert_eq!(ffi.has_transfer_characteristic, 0);
    assert_eq!(ffi.transfer_characteristic, [0; 16]);
    assert_eq!(ffi.has_mastering_display_primaries, 0);
    assert_eq!(ffi.mastering_display_primaries, [0; 6]);
    assert_eq!(HdrMetadata::from_ffi(&ffi), partial);
}

#[test]
fn absent_hdr_metadata_reads_as_default() {
    let ffi = zero_hdr_metadata();
    assert_eq!(HdrMetadata::from_ffi(&ffi), HdrMetadata::default());
    let mut flagged = zero_hdr_metadata();
    flagged.has_mastering_display_max_luminance = 1;
    flagged.mastering_display_max_luminance = 10_000_000;
    assert_eq!(
        HdrMetadata::from_ffi(&flagged).mastering_display_max_luminance,
        Some(10_000_000)
    );
}

#[test]
fn codestream_header_reads_its_record() {
    let header = CodestreamHeader::from_ffi(&cinema_codestream_record());
    assert_eq!(header.rsize, 0x0003);
    assert_eq!(header.xsize, 64);
    assert_eq!(header.ysize, 64);
    assert_eq!(header.components.len(), 3);
    for component in &header.components {
        assert_eq!(component.bit_depth(), 12);
        assert!(!component.is_signed());
    }
    assert_eq!(header.coding_style_default.number_of_layers, 0x0102);
    assert_eq!(header.coding_style_default.decomposition_levels, 5);
    assert_eq!(header.quantization_default.sqcd, 0x22);
    assert_eq!(header.quantization_default.spqcd, vec![9, 8, 7, 6, 5]);
    assert_eq!(header.extended_capabilities, None);
}

#[test]
fn codestream_header_roundtrips_through_its_record() {
    let mut record = cinema_codestream_record();
    record.extended_capabilities.capability_count = 2;
    record.extended_capabilities.pcap = 0x0002_0000;
    record.extended_capabilities.ccap[0] = 0x0003;
    record.extended_capabilities.ccap[1] = 0x0004;
    let header = CodestreamHeader::from_ffi(&record);
    assert!(header.fits_in_record());
    let caps = header.extended_capabilities.clone().unwrap();
    assert_eq!(caps.pcap, 0x0002_0000);
    assert_eq!(caps.ccap, vec![3, 4]);

    let written = header.to_ffi();
    assert_eq!(written.csize, 3);
    assert_eq!(written.coding_style_default.number_of_layers, [0x01, 0x02]);
    assert_eq!(written.quantization_default.spqcd_length, 5);
    assert_eq!(written.extended_capabilities.capability_count, 2);
    assert_eq!(CodestreamHeader::from_ffi(&written), header);
}

#[test]
fn codestream_header_keeps_at_most_the_record_components() {
    let mut record = cinema_codestream_record();
    record.csize = 7;
    record.image_components[3] = sys::AsdcpImageComponent { ssize: 7, x_rsize: 2, y_rsize: 2 };
    let header = CodestreamHeader::from_ffi(&record);
    assert_eq!(header.components.len(), sys::ASDCP_JP2K_MAX_COMPONENTS);
    assert_eq!(header.components[3].bit_depth(), 8);
}

#[test]
fn capability_counts_that_can_be_read() {
    assert!(capability_count_is_valid(sys::ASDCP_JP2K_NO_EXTENDED_CAPABILITIES));
    assert!(capability_count_is_valid(0));
    assert!(capability_count_is_valid(32));
    assert!(!capability_count_is_valid(33));
    assert!(!capability_count_is_valid(-2));
}

#[test]
fn picture_descriptor_roundtrips_through_its_record() {
    let mut ffi = sys::AsdcpPictureDescriptor {
        edit_rate: Rational::edit_rate_24().to_ffi(),
        sample_rate: Rational::edit_rate_24().to_ffi(),
        stored_width: 64,
        stored_height: 64,
        aspect_ratio: Rational::new(1, 1).to_ffi(),
        container_duration: 1440,
        codestream: cinema_codestream_record(),
    };
    ffi.codestream.rsize = 0x0536;
    let desc = PictureDescriptor::from_ffi(&ffi);
    assert_eq!(desc.edit_rate, Rational::edit_rate_24());
    assert_eq!(desc.container_duration, 1440);
    assert_eq!(desc.codestream.rsize, 0x0536);
    let back = PictureDescriptor::from_ffi(&desc.to_ffi());
    assert_eq!(back.stored_width, 64);
    assert_eq!(back.aspect_ratio, Rational::new(1, 1));
    assert_eq!(back.codestream, desc.codestream);
}

#[test]
fn stereoscopic_phase_codes() {
    assert_eq!(StereoscopicPhase::Left.code(), 0);
    assert_eq!(StereoscopicPhase::Right.code(), 1);
}

#[test]
fn audio_descriptor_roundtrips_through_its_record() {
    let desc = AudioDescriptor {
        edit_rate: Rational::new(24, 1),
        audio_sampling_rate: Rational::new(48_000, 1),
        locked: true,
        channel_count: 6,
        quantization_bits: 24,
        block_align: 18,
        avg_bps: 864_000,
        linked_track_id: 0,
        container_duration: 1,
        channel_format: ChannelFormat::Cfg6,
    };
    let ffi = desc.to_ffi();
    assert_eq!(ffi.locked, 1);
    assert_eq!(ffi.channel_format, 6);
    let back = AudioDescriptor::from_ffi(&ffi);
    assert_eq!(back.channel_count, 6);
    assert_eq!(back.block_align, 18);
    assert_eq!(back.avg_bps, 864_000);
    assert!(back.locked);
    assert_eq!(back.channel_format, ChannelFormat::Cfg6);
    assert_eq!(back.audio_sampling_rate, Rational::new(48_000, 1));
}

#[test]
fn channel_format_codes() {
    for format in [
        ChannelFormat::Unconfigured,
        ChannelFormat::Cfg1,
        ChannelFormat::Cfg2,
        ChannelFormat::Cfg3,
        ChannelFormat::Cfg4,
        ChannelFormat::Cfg5,
        ChannelFormat::Cfg6,
    ] {
        assert_eq!(ChannelFormat::from_code(format.code()), format);
    }
    assert_eq!(ChannelFormat::from_code(9), ChannelFormat::Unconfigured);
    assert_eq!(ChannelFormat::from_code(-1), ChannelFormat::Unconfigured);
}

#[test]
fn mca_label_summary_from_counts() {
    let summary = McaLabelSummary::from_counts(6, 1, 1);
    assert_eq!(
        summary,
        McaLabelSummary { channel_labels: 6, soundfield_groups: 1, has_mca_channel_assignment: true }
    );
    assert!(!McaLabelSummary::from_counts(0, 0, 0).has_mca_channel_assignment);
}

#[test]
fn timed_text_descriptor_roundtrips_through_its_record() {
    let desc = TimedTextDescriptor {
        edit_rate: Rational::edit_rate_24(),
        container_duration: 96,
        asset_id: [5; 16],
    };
    let back = TimedTextDescriptor::from_ffi(&desc.to_ffi());
    assert_eq!(back.edit_rate, Rational::edit_rate_24());
    assert_eq!(back.container_duration, 96);
    assert_eq!(back.asset_id, [5; 16]);
}

#[test]
fn mime_type_codes() {
    assert_eq!(MimeType::Binary.code(), 0);
    assert_eq!(MimeType::Png.code(), 1);
    assert_eq!(MimeType::OpenType.code(), 2);
    assert_eq!(MimeType::from_i32(2), MimeType::OpenType);
    assert_eq!(MimeType::from_i32(1), MimeType::Png);
    assert_eq!(MimeType::from_i32(17), MimeType::Binary);
}

#[test]
fn resource_tables_lay_uuids_end_to_end() {
    let resources = [
        AncillaryResourceInfo { uuid: [0xab; 16], mime_type: MimeType::OpenType },
        AncillaryResourceInfo { uuid: [0x01; 16], mime_type: MimeType::Png },
    ];
    let (uuids, types) = resource_tables(&resources);
    assert_eq!(uuids.len(), 32);
    assert_eq!(&uuids[..16], &[0xab; 16]);
    assert_eq!(&uuids[16..], &[0x01; 16]);
    assert_eq!(types, vec![2, 1]);
    let (uuids, types) = resource_tables(&[]);
    assert!(uuids.is_empty());
    assert!(types.is_empty());
}

#[test]
fn ancillary_resource_info_from_record() {
    let info = AncillaryResourceInfo::from_ffi([0xab; 16], 2);
    assert_eq!(info.uuid, [0xab; 16]);
    assert_eq!(info.mime_type, MimeType::OpenType);
}

#[test]
fn atmos_descriptor_roundtrips_through_its_record() {
    let desc = AtmosDescriptor {
        edit_rate: Rational::edit_rate_24(),
        container_duration: 2,
        asset_id: [0xa1; 16],
        data_essence_coding: [0; 16],
        first_frame: 0,
        max_channel_count: 10,
        max_object_count: 118,
        atmos_id: [0xb2; 16],
        atmos_version: 1,
    };
    let back = AtmosDescriptor::from_ffi(&desc.to_ffi());
    assert_eq!(back.edit_rate, Rational::edit_rate_24());
    assert_eq!(back.max_channel_count, 10);
    assert_eq!(back.max_object_count, 118);
    assert_eq!(back.atmos_id, [0xb2; 16]);
    assert_eq!(back.atmos_version, 1);
    assert_eq!(back.container_duration, 2);
}

#[test]
fn optional_and_prefix() {
    assert_eq!(optional(1, 7u32), Some(7));
    assert_eq!(optional(-3, 7u32), Some(7));
    assert_eq!(optional(0, 7u32), None);
    assert_eq!(prefix(&[1u8, 2, 3, 4], 2), vec![1, 2]);
    assert_eq!(prefix(&[1u8, 2, 3, 4], 0), Vec::<u8>::new());
}

#[test]
fn rgba_descriptor_from_record() {
    let ffi = sys::AsdcpRgbaDescriptor {
        has_picture_essence_coding: 1,
        picture_essence_coding: PICTURE_ESSENCE_CODING_CINEMA_2K,
        pixel_layout: [b'R', 12, b'G', 12, b'B', 12, 0, 0, 0, 0, 0, 0, 0, 0, 0, 0],
        has_component_max_ref: 1,
        component_max_ref: 4095,
        has_component_min_ref: 0,
        component_min_ref: 99,
    };
    let rgba = RgbaDescriptor::from_ffi(&ffi);
    assert_eq!(rgba.picture_essence_coding, Some(PICTURE_ESSENCE_CODING_CINEMA_2K));
    assert_eq!(rgba.pixel_layout[1], 12);
    assert_eq!(rgba.component_max_ref, Some(4095));
    assert_eq!(rgba.component_min_ref, None);
}

#[test]
fn rgba_essence_descriptor_from_record() {
    let mut ffi = zero_rgba_essence_descriptor();
    ffi.instance_id = [0x11; 16];
    ffi.sub_descriptor_count = 1;
    ffi.sub_descriptors[0] = [0x22; 16];
    ffi.sub_descriptors[1] = [0x33; 16];
    ffi.has_linked_track_id = 1;
    ffi.linked_track_id = 1;
    ffi.sample_rate = Rational::edit_rate_24().to_ffi();
    ffi.has_container_duration = 1;
    ffi.container_duration = 2;
    ffi.stored_width = 3840;
    ffi.stored_height = 2160;
    ffi.aspect_ratio = Rational::new(3840, 2160).to_ffi();
    ffi.picture_essence_coding = PICTURE_ESSENCE_CODING_IMF_4K_LOSSY_6_3;
    ffi.has_scanning_direction = 1;
    ffi.has_video_line_map = 1;
    ffi.video_line_map = [1, 0];
    ffi.has_component_max_ref = 1;
    ffi.component_max_ref = 4095;
    ffi.has_component_min_ref = 1;
    assert!(RgbaEssenceDescriptor::readable(&ffi));
    let rgba = RgbaEssenceDescriptor::from_ffi(&ffi);
    assert_eq!(rgba.instance_id, [0x11; 16]);
    assert_eq!(rgba.sub_descriptors, vec![[0x22; 16]]);
    assert_eq!(rgba.locators, Vec::<[u8; 16]>::new());
    assert_eq!(rgba.generation_id, None);
    assert_eq!(rgba.linked_track_id, Some(1));
    assert_eq!(rgba.sample_rate, Rational::edit_rate_24());
    assert_eq!(rgba.container_duration, Some(2));
    assert_eq!(rgba.codec, None);
    assert_eq!(rgba.stored_width, 3840);
    assert_eq!(rgba.aspect_ratio, Rational::new(3840, 2160));
    assert_eq!(rgba.picture_essence_coding, PICTURE_ESSENCE_CODING_IMF_4K_LOSSY_6_3);
    assert_eq!(rgba.scanning_direction, Some(0));
    assert_eq!(rgba.video_line_map, Some([1, 0]));
    assert_eq!(rgba.component_max_ref, Some(4095));
    assert_eq!(rgba.component_min_ref, Some(0));
    assert_eq!(rgba.alpha_max_ref, None);
    assert_eq!(rgba.hdr, HdrMetadata::default());
    assert_eq!(rgba.alternative_center_cuts, Vec::<[u8; 16]>::new());

    ffi.locator_count = sys::ASDCP_MAX_LOCATORS as u32 + 1;
    assert!(!RgbaEssenceDescriptor::readable(&ffi));
}

#[test]
fn jpeg2000_sub_descriptor_from_record() {
    let mut ffi = zero_jpeg2000_sub_descriptor();
    ffi.instance_id = [0x22; 16];
    ffi.rsize = 0x0536;
    ffi.xsize = 3840;
    ffi.ysize = 2160;
    ffi.csize = 3;
    ffi.has_picture_component_sizing = 1;
    ffi.picture_component_sizing[..8].copy_from_slice(&[0, 0, 0, 3, 0, 0, 0, 3]);
    ffi.picture_component_sizing_length = 8;
    ffi.has_coding_style_default = 0;
    ffi.coding_style_default_length = 4;
    ffi.has_j2c_layout = 1;
    ffi.j2c_layout = [b'R', 12, b'G', 12, b'B', 12, 0, 0, 0, 0, 0, 0, 0, 0, 0, 0];
    ffi.has_extended_capabilities = 1;
    ffi.pcap = 7;
    ffi.capability_count = 1;
    ffi.ccap[0] = 9;
    assert!(Jpeg2000PictureSubDescriptor::readable(&ffi));
    let sub = Jpeg2000PictureSubDescriptor::from_ffi(&ffi);
    assert_eq!(sub.instance_id, [0x22; 16]);
    assert_eq!(sub.rsize, 0x0536);
    assert_eq!(sub.csize, 3);
    assert_eq!(sub.picture_component_sizing, Some(vec![0, 0, 0, 3, 0, 0, 0, 3]));
    assert_eq!(sub.coding_style_default, None);
    assert_eq!(sub.quantization_default, None);
    assert_eq!(sub.j2c_layout.unwrap()[1], 12);
    let caps = sub.extended_capabilities.unwrap();
    assert_eq!(caps.pcap, 7);
    assert_eq!(caps.ccap, vec![9]);
    assert_eq!(sub.profile, None);

    ffi.quantization_default_length = sys::ASDCP_MAX_QUANTIZATION as u32 + 1;
    assert!(!Jpeg2000PictureSubDescriptor::readable(&ffi));
}

#[test]
fn test_as02_pcm_mca_empty_group_property_fails() {
    let group = SoundfieldGroupProperties {
        language: "en-US",
        title: "Sol Levante",
        title_version: "Original Version",
        audio_content_kind: "PRM",
        audio_element_kind: "FCMP",
    };
    assert_eq!(group.check(), Ok(()));
    let empty = SoundfieldGroupProperties { audio_element_kind: "", ..group };
    assert_eq!(empty.check(), Err(Error::InvalidArgument("empty soundfield group property")));
    let no_language = SoundfieldGroupProperties { language: "", ..group };
    assert!(no_language.check().is_err());
}
