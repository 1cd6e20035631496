use mptree::error::MpError;
use mptree::header::{ChannelMode, Extension, Header, Layer, Version};

/// Builds the 4 header bytes from the individual fields.
fn header_bytes(
    version_code: u8,
    layer_code: u8,
    protection_bit: u8,
    bitrate_index: u8,
    sampling_index: u8,
    padding: u8,
    channel_code: u8,
    extension_bits: u8,
) -> [u8; 4] {
    [
        0xFF,
        0xE0 | (version_code << 3) | (layer_code << 1) | protection_bit,
        (bitrate_index << 4) | (sampling_index << 2) | (padding << 1),
        (channel_code << 6) | (extension_bits << 4),
    ]
}

const V1: u8 = 3;
const V2: u8 = 2;
const V2_5: u8 = 0;
const L1: u8 = 3;
const L2: u8 = 2;
const L3: u8 = 1;

#[test]
fn bitrate_table_round_trip_all_columns() {
    let col_v1_l1: [u16; 15] = [
        0, 32, 64, 96, 128, 160, 192, 224, 256, 288, 320, 352, 384, 416, 448,
    ];
    let col_v1_l2: [u16; 15] = [
        0, 32, 48, 56, 64, 80, 96, 112, 128, 160, 192, 224, 256, 320, 384,
    ];
    let col_v1_l3: [u16; 15] = [
        0, 32, 40, 48, 56, 64, 80, 96, 112, 128, 160, 192, 224, 256, 320,
    ];
    let col_v2_l1: [u16; 15] = [
        0, 32, 48, 56, 64, 80, 96, 112, 128, 144, 160, 176, 192, 224, 256,
    ];
    let col_v2_l2_l3: [u16; 15] = [
        0, 8, 16, 24, 32, 40, 48, 56, 64, 80, 96, 112, 128, 144, 160,
    ];
    let columns: [(Version, Layer, [u16; 15]); 7] = [
        (Version::Version1, Layer::Layer1, col_v1_l1),
        (Version::Version1, Layer::Layer2, col_v1_l2),
        (Version::Version1, Layer::Layer3, col_v1_l3),
        (Version::Version2, Layer::Layer1, col_v2_l1),
        (Version::Version2_5, Layer::Layer1, col_v2_l1),
        (Version::Version2, Layer::Layer2, col_v2_l2_l3),
        (Version::Version2_5, Layer::Layer3, col_v2_l2_l3),
    ];
    for (version, layer, column) in columns.iter() {
        for idx in 0..15u8 {
            // Stereo is a legal pairing for every Layer II bitrate except
            // the mono-only ones, which are skipped for Layer II here and
            // checked in their own test.
            if *layer == Layer::Layer2 && matches!(column[idx as usize], 32 | 48 | 56 | 80) {
                continue;
            }
            let got = Header::lookup_bitrate(idx, version, layer, &ChannelMode::Stereo);
            match got {
                Ok(kbps) => assert_eq!(kbps, column[idx as usize]),
                Err(e) => panic!("index {} failed: {:?}", idx, e),
            }
        }
    }
}

#[test]
fn bitrate_index_15_fails_bad_bit() {
    let r = Header::lookup_bitrate(15, &Version::Version1, &Layer::Layer3, &ChannelMode::Stereo);
    assert!(matches!(r, Err(MpError::BadBit(15))));
}

#[test]
fn bitrate_reserved_version_or_layer_fails_before_lookup() {
    let r = Header::lookup_bitrate(15, &Version::Reserved, &Layer::Layer3, &ChannelMode::Stereo);
    assert!(matches!(r, Err(MpError::Reserved)));
    let r = Header::lookup_bitrate(4, &Version::Version1, &Layer::Reserved, &ChannelMode::Stereo);
    assert!(matches!(r, Err(MpError::Reserved)));
}

#[test]
fn sampling_code_3_reserved_for_every_version() {
    for version in [Version::Version1, Version::Version2, Version::Version2_5, Version::Reserved] {
        let r = Header::lookup_sampling_rate(3, &version);
        assert!(matches!(r, Err(MpError::Reserved)));
    }
}

#[test]
fn sampling_table_exact_values() {
    let rows: [(Version, [u16; 3]); 3] = [
        (Version::Version1, [44100, 48000, 32000]),
        (Version::Version2, [22050, 24000, 16000]),
        (Version::Version2_5, [11025, 12000, 8000]),
    ];
    for (version, row) in rows.iter() {
        for code in 0..3u8 {
            let r = Header::lookup_sampling_rate(code, version);
            match r {
                Ok(hz) => assert_eq!(hz, row[code as usize]),
                Err(e) => panic!("code {} failed: {:?}", code, e),
            }
        }
    }
    assert!(matches!(
        Header::lookup_sampling_rate(0, &Version::Reserved),
        Err(MpError::Reserved)
    ));
}

#[test]
fn frame_length_layer3_formula() {
    // V1, Layer III, 128 kbps (index 9), 44100 Hz, no padding.
    let bytes = header_bytes(V1, L3, 1, 9, 0, 0, 0, 0);
    let h = Header::new(&bytes).unwrap();
    assert_eq!(h.bitrate(), 128);
    assert_eq!(h.sampling_rate(), 44100);
    assert_eq!(h.frame_length(), 417);
}

#[test]
fn frame_length_layer1_formula() {
    // V1, Layer I, 128 kbps (index 4), 44100 Hz, padding.
    let bytes = header_bytes(V1, L1, 1, 4, 0, 1, 0, 0);
    let h = Header::new(&bytes).unwrap();
    assert_eq!(h.bitrate(), 128);
    assert_eq!(h.frame_length(), 140);
}

#[test]
fn version2_header_decodes() {
    // V2, Layer III, 64 kbps (index 8), 22050 Hz, stereo.
    let bytes = header_bytes(V2, L3, 1, 8, 0, 0, 0, 0);
    let h = Header::new(&bytes).unwrap();
    assert_eq!(*h.version(), Version::Version2);
    assert_eq!(h.bitrate(), 64);
    assert_eq!(h.sampling_rate(), 22050);
    assert_eq!(h.frame_length(), 417);
}

#[test]
fn worst_case_frame_stays_within_the_bound() {
    // V2.5, Layer III, 160 kbps (index 14), 8000 Hz, padded: the largest
    // frame the format allows.
    let bytes = header_bytes(V2_5, L3, 1, 14, 2, 1, 3, 0);
    let h = Header::new(&bytes).unwrap();
    assert_eq!(*h.version(), Version::Version2_5);
    assert_eq!(h.bitrate(), 160);
    assert_eq!(h.sampling_rate(), 8000);
    assert_eq!(h.frame_length(), 2881);
}

#[test]
fn header_round_trip_is_deterministic() {
    let bytes = header_bytes(V1, L3, 0, 9, 0, 1, 1, 0b10);
    let h1 = Header::new(&bytes).unwrap();
    let h2 = Header::new(&bytes).unwrap();
    assert_eq!(h1.version(), h2.version());
    assert_eq!(h1.layer(), h2.layer());
    assert_eq!(h1.channel(), h2.channel());
    assert_eq!(h1.bitrate(), h2.bitrate());
    assert_eq!(h1.sampling_rate(), h2.sampling_rate());
    assert_eq!(h1, h2);
    // And the decoded values are the expected ones.
    assert_eq!(*h1.version(), Version::Version1);
    assert_eq!(*h1.layer(), Layer::Layer3);
    assert!(!h1.protection()); // bit 0: the CRC field is present
    assert_eq!(h1.bitrate(), 128);
    assert_eq!(h1.sampling_rate(), 44100);
    assert_eq!(h1.padding(), 1);
    assert_eq!(
        *h1.channel(),
        ChannelMode::JointStereo(Extension::Stereo(true, false))
    );
}

#[test]
fn header_field_bits_decode() {
    // Dual channel, copyright, original, emphasis 2, private bit set.
    let bytes = [0xFF, 0xFB, 0x91, 0x80 | 0x08 | 0x04 | 0x02];
    let h = Header::new(&bytes).unwrap();
    assert_eq!(*h.channel(), ChannelMode::Dual);
    assert!(h.private());
    assert!(h.copyright());
    assert!(h.original());
    assert!(h.protection()); // bit 1: not CRC-protected
}

#[test]
fn header_reserved_version_fails() {
    let bytes = header_bytes(1, L3, 1, 9, 0, 0, 0, 0);
    assert!(matches!(Header::new(&bytes), Err(MpError::Reserved)));
}

#[test]
fn header_reserved_layer_fails() {
    let bytes = header_bytes(V1, 0, 1, 9, 0, 0, 0, 0);
    assert!(matches!(Header::new(&bytes), Err(MpError::Reserved)));
}

#[test]
fn header_reserved_sampling_fails() {
    let bytes = header_bytes(V1, L3, 1, 9, 3, 0, 0, 0);
    assert!(matches!(Header::new(&bytes), Err(MpError::Reserved)));
}

#[test]
fn header_bitrate_index_15_fails() {
    let bytes = header_bytes(V1, L3, 1, 15, 0, 0, 0, 0);
    assert!(matches!(Header::new(&bytes), Err(MpError::BadBit(15))));
}

#[test]
fn header_wrong_length_fails() {
    assert!(matches!(
        Header::new(&[0xFF, 0xFB]),
        Err(MpError::InvalidData(_))
    ));
    assert!(matches!(
        Header::new(&[0xFF, 0xFB, 0x90, 0x00, 0x00]),
        Err(MpError::InvalidData(_))
    ));
}

#[test]
fn joint_stereo_outside_layer3_is_unsupported() {
    // Layer II joint stereo: recognized syntactically, rejected with the
    // unsupported-layer message.
    let bytes = header_bytes(V1, L2, 1, 8, 0, 0, 1, 0);
    match Header::new(&bytes) {
        Err(MpError::InvalidData(msg)) => {
            assert_eq!(msg, "Layer Layer2 is currently unsupported");
        }
        other => panic!("expected InvalidData, got {:?}", other),
    }
}

#[test]
fn layer2_high_bitrate_mono_fails_with_alternatives() {
    // Layer II at 256 kbps (>= 224) must not be mono; the error lists the
    // modes that would have been legal.
    let r = Header::lookup_bitrate(12, &Version::Version1, &Layer::Layer2, &ChannelMode::Mono);
    match r {
        Err(MpError::InvalidMode(got, expected)) => {
            assert_eq!(got, ChannelMode::Mono);
            assert_eq!(
                expected,
                vec![
                    ChannelMode::Dual,
                    ChannelMode::Stereo,
                    ChannelMode::JointStereo(Extension::Stereo(true, false)),
                ]
            );
        }
        other => panic!("expected InvalidMode, got {:?}", other),
    }
    // The same pairing through a whole header decode.
    let bytes = header_bytes(V1, L2, 1, 12, 0, 0, 3, 0);
    assert!(matches!(
        Header::new(&bytes),
        Err(MpError::InvalidMode(ChannelMode::Mono, _))
    ));
}

#[test]
fn layer2_low_bitrate_requires_mono() {
    // 32, 48, 56 and 80 kbps require mono in Layer II.
    for idx in [1u8, 2, 3, 5] {
        let r =
            Header::lookup_bitrate(idx, &Version::Version1, &Layer::Layer2, &ChannelMode::Stereo);
        match r {
            Err(MpError::InvalidMode(got, expected)) => {
                assert_eq!(got, ChannelMode::Stereo);
                assert_eq!(expected, vec![ChannelMode::Mono]);
            }
            other => panic!("index {}: expected InvalidMode, got {:?}", idx, other),
        }
        let ok = Header::lookup_bitrate(idx, &Version::Version1, &Layer::Layer2, &ChannelMode::Mono);
        assert!(ok.is_ok());
    }
}

#[test]
fn layer2_mid_bitrate_allows_any_mode() {
    // 64 kbps (index 4) has no Layer II mode restriction.
    for channel in [ChannelMode::Stereo, ChannelMode::Dual, ChannelMode::Mono] {
        let r = Header::lookup_bitrate(4, &Version::Version1, &Layer::Layer2, &channel);
        assert_eq!(r.unwrap(), 64);
    }
}

#[test]
fn wrong_layer_message() {
    assert_eq!(
        mptree::error::wrong_layer(&Layer::Layer1),
        "Layer Layer1 is currently unsupported"
    );
}
