use asdcplib::pcm::ChannelFormat;
use asdcplib::{EssenceType, LabelSet, Rational, WriterInfo};

#[test]
fn test_edit_rate_constants() {
    assert_eq!(Rational::edit_rate_24(), Rational::new(24, 1));
    assert_eq!(Rational::edit_rate_25(), Rational::new(25, 1));
    assert_eq!(Rational::edit_rate_48(), Rational::new(48, 1));
    assert_eq!(Rational::sample_rate_48k(), Rational::new(48000, 1));
}

#[test]
fn test_writer_info_default() {
    let info = WriterInfo::default();
    assert!(!info.encrypted_essence);
    assert!(!info.uses_hmac);
    assert_eq!(info.label_set, LabelSet::Smpte);
    assert_eq!(info.asset_uuid, [0u8; 16]);
}

#[test]
fn test_writer_info_fields() {
    let info = WriterInfo {
        asset_uuid: [1, 2, 3, 4, 5, 6, 7, 8, 9, 10, 11, 12, 13, 14, 15, 16],
        encrypted_essence: true,
        uses_hmac: true,
        label_set: LabelSet::Interop,
        ..Default::default()
    };

    assert_eq!(info.asset_uuid[0], 1);
    assert!(info.encrypted_essence);
    assert!(info.uses_hmac);
    assert_eq!(info.label_set, LabelSet::Interop);
}

#[test]
fn test_essence_type_from_i32() {
    assert_eq!(EssenceType::from(0), EssenceType::Unknown);
    assert_eq!(EssenceType::from(2), EssenceType::Jpeg2000);
    assert_eq!(EssenceType::from(3), EssenceType::Pcm24b48k);
    assert_eq!(EssenceType::from(5), EssenceType::TimedText);
    assert_eq!(EssenceType::from(6), EssenceType::Jpeg2000Stereo);
    assert_eq!(EssenceType::from(8), EssenceType::DcDataDolbyAtmos);
    assert_eq!(EssenceType::from(999), EssenceType::Unknown);
}

/// Numbering must track ASDCP::EssenceType_t in AS_DCP.h.
#[test]
fn test_essence_type_as02_variants() {
    assert_eq!(EssenceType::from(9), EssenceType::As02Jpeg2000);
    assert_eq!(EssenceType::from(10), EssenceType::As02Pcm24b48k);
    assert_eq!(EssenceType::from(11), EssenceType::As02Pcm24b96k);
    assert_eq!(EssenceType::from(12), EssenceType::As02TimedText);
    assert_eq!(EssenceType::from(13), EssenceType::As02Isxd);
    assert_eq!(EssenceType::from(14), EssenceType::As02Aces);
    assert_eq!(EssenceType::from(15), EssenceType::As02Iab);
    assert_eq!(EssenceType::from(16), EssenceType::As02JpegXs);
    assert_eq!(EssenceType::from(17), EssenceType::JpegXs);
    // ESS_MAX and beyond stay Unknown
    assert_eq!(EssenceType::from(18), EssenceType::Unknown);
}

/// Guards against the mapping silently collapsing onto one variant.
#[test]
fn test_essence_type_mapping_is_injective() {
    let mapped: Vec<EssenceType> = (1..=17).map(EssenceType::from).collect();
    for (i, a) in mapped.iter().enumerate() {
        assert_ne!(*a, EssenceType::Unknown, "code {} maps to Unknown", i + 1);
        for b in &mapped[i + 1..] {
            assert_ne!(a, b, "two distinct codes map to {a:?}");
        }
    }
}

#[test]
fn test_channel_format_values() {
    assert_eq!(ChannelFormat::Unconfigured as i32, 0);
    assert_eq!(ChannelFormat::Cfg1 as i32, 1);
    assert_eq!(ChannelFormat::Cfg3 as i32, 3);
}
