use mptree::error::MpError;
use mptree::frame::Frame;
use mptree::header::Header;
use mptree::side_info::{Granule, SideInformation};

/// Writes `val` into bits `start .. start + n` of `buf`, most-significant
/// bit first, matching the stream layout the decoder reads.
fn set_bits(buf: &mut [u8], start: usize, n: usize, val: u64) {
    for k in 0..n {
        let bit = (val >> (n - 1 - k)) & 1;
        let i = start + k;
        let mask = 1u8 << (7 - i % 8);
        if bit == 1 {
            buf[i / 8] |= mask;
        } else {
            buf[i / 8] &= !mask;
        }
    }
}

/// V1, Layer III, 128 kbps, 44100 Hz, no padding, mono, not CRC-protected.
fn mono_header() -> Header {
    Header::new(&[0xFF, 0xFB, 0x90, 0xC0]).unwrap()
}

/// As `mono_header`, but with the CRC-16 field present.
fn mono_header_protected() -> Header {
    Header::new(&[0xFF, 0xFA, 0x90, 0xC0]).unwrap()
}

/// V1, Layer III, 128 kbps, 44100 Hz, no padding, stereo, not protected.
fn stereo_header() -> Header {
    Header::new(&[0xFF, 0xFB, 0x90, 0x00]).unwrap()
}

/// A mono side-information block with granule 0 in the windowed branch
/// (window switching set) and granule 1 in the non-windowed branch.
fn mono_block() -> [u8; 17] {
    let mut data = [0u8; 17];
    set_bits(&mut data, 0, 9, 257); // main_data_begin
    set_bits(&mut data, 9, 5, 0b10101); // private bits: consumed, not kept
    set_bits(&mut data, 14, 1, 1); // scfsi band 0
    set_bits(&mut data, 15, 1, 0);
    set_bits(&mut data, 16, 1, 1);
    set_bits(&mut data, 17, 1, 1);

    // Granule 0, windowed: regions must be derived, not read.
    let g0 = 18;
    set_bits(&mut data, g0, 12, 1234); // part2_3_length
    set_bits(&mut data, g0 + 12, 9, 345); // big_values
    set_bits(&mut data, g0 + 21, 8, 210); // global_gain
    set_bits(&mut data, g0 + 29, 4, 9); // scalefactor_compress
    set_bits(&mut data, g0 + 33, 1, 1); // window_switching
    set_bits(&mut data, g0 + 34, 2, 2); // block_type
    set_bits(&mut data, g0 + 36, 1, 1); // mixed_blockflag
    set_bits(&mut data, g0 + 37, 5, 17); // table_select 0
    set_bits(&mut data, g0 + 42, 5, 5); // table_select 1
    set_bits(&mut data, g0 + 47, 3, 3); // subblock_gain 0
    set_bits(&mut data, g0 + 50, 3, 7); // subblock_gain 1
    set_bits(&mut data, g0 + 53, 3, 2); // subblock_gain 2
    set_bits(&mut data, g0 + 56, 1, 1); // preflag
    set_bits(&mut data, g0 + 57, 1, 0); // scalefactor_scale
    set_bits(&mut data, g0 + 58, 1, 1); // count1table_select

    // Granule 1, non-windowed: regions come from the stream.
    let g1 = 18 + 59;
    set_bits(&mut data, g1, 12, 99);
    set_bits(&mut data, g1 + 12, 9, 511);
    set_bits(&mut data, g1 + 21, 8, 0);
    set_bits(&mut data, g1 + 29, 4, 15);
    set_bits(&mut data, g1 + 33, 1, 0); // window_switching off
    set_bits(&mut data, g1 + 34, 5, 31); // table_select 0
    set_bits(&mut data, g1 + 39, 5, 0); // table_select 1
    set_bits(&mut data, g1 + 44, 5, 13); // table_select 2
    set_bits(&mut data, g1 + 49, 4, 11); // region0_count
    set_bits(&mut data, g1 + 53, 3, 5); // region1_count
    set_bits(&mut data, g1 + 56, 1, 0);
    set_bits(&mut data, g1 + 57, 1, 1);
    set_bits(&mut data, g1 + 58, 1, 0);
    data
}

fn check_mono_fields(main_data_size: u16, si: &SideInformation) {
    assert_eq!(si.main_data_size, main_data_size);
    assert_eq!(si.main_data_begin, 257);
    assert_eq!(
        (si.scfsi0.band0, si.scfsi0.band1, si.scfsi0.band2, si.scfsi0.band3),
        (1, 0, 1, 1)
    );
    assert_eq!((si.scfsi1.band0, si.scfsi1.band1, si.scfsi1.band2, si.scfsi1.band3), (0, 0, 0, 0));

    let c0 = &si.granule0.ch0;
    assert_eq!(c0.part2_3_length, 1234);
    assert_eq!(c0.big_values, 345);
    assert_eq!(c0.global_gain, 210);
    assert_eq!(c0.scalefactor_compress, 9);
    assert_eq!(c0.window_switching, 1);
    assert_eq!(c0.block_type, 2);
    assert!(c0.mixed_blockflag);
    assert_eq!((c0.table_select0, c0.table_select1, c0.table_select2), (17, 5, 0));
    assert_eq!((c0.subblock_gain0, c0.subblock_gain1, c0.subblock_gain2), (3, 7, 2));
    // Derived, not read from the stream: block_type 2 fixes 8 and 12.
    assert_eq!(c0.region0_count, 8);
    assert_eq!(c0.region1_count, 12);
    assert_eq!((c0.preflag, c0.scalefactor_scale, c0.count1table_select), (1, 0, 1));

    let c1 = &si.granule1.ch0;
    assert_eq!(c1.part2_3_length, 99);
    assert_eq!(c1.big_values, 511);
    assert_eq!(c1.global_gain, 0);
    assert_eq!(c1.scalefactor_compress, 15);
    assert_eq!(c1.window_switching, 0);
    assert_eq!(c1.block_type, 0);
    assert!(!c1.mixed_blockflag);
    assert_eq!((c1.table_select0, c1.table_select1, c1.table_select2), (31, 0, 13));
    assert_eq!((c1.subblock_gain0, c1.subblock_gain1, c1.subblock_gain2), (0, 0, 0));
    // Read from the stream in the non-windowed branch.
    assert_eq!(c1.region0_count, 11);
    assert_eq!(c1.region1_count, 5);
    assert_eq!((c1.preflag, c1.scalefactor_scale, c1.count1table_select), (0, 1, 0));

    // Mono: the second channel entries stay zeroed.
    assert_eq!(si.granule0.ch1.part2_3_length, 0);
    assert_eq!(si.granule1.ch1.part2_3_length, 0);
    assert_eq!(si.granule0.ch1.region1_count, 0);
}

#[test]
fn mono_block_decodes_from_exactly_17_bytes() {
    let header = mono_header();
    let data = mono_block();
    // 417-byte frame, 4 header bytes, 17 side-info bytes, no CRC.
    let si = SideInformation::new(&header, &data).unwrap();
    check_mono_fields(417 - 4 - 17, &si);
}

#[test]
fn protected_frame_subtracts_the_crc_field() {
    let header = mono_header_protected();
    let data = mono_block();
    let si = SideInformation::new(&header, &data).unwrap();
    assert_eq!(si.main_data_size, 417 - 4 - 17 - 2);
}

#[test]
fn windowed_branch_ignores_region_bits_in_stream() {
    // Flip the bits where the non-windowed branch would keep its region
    // counts; in the windowed branch of granule 0 those bits belong to the
    // subblock gains, and the derived region counts must not move.
    let header = mono_header();
    let mut data = mono_block();
    set_bits(&mut data, 18 + 49, 4, 0b1111);
    set_bits(&mut data, 18 + 53, 3, 0b111);
    let si = SideInformation::new(&header, &data).unwrap();
    assert_eq!(si.granule0.ch0.region0_count, 8);
    assert_eq!(si.granule0.ch0.region1_count, 12);
    // The flipped bits land in the subblock gains instead.
    assert_eq!((si.granule0.ch0.subblock_gain1, si.granule0.ch0.subblock_gain2), (7, 7));
}

#[test]
fn stereo_block_uses_32_bytes_and_both_channels() {
    let header = stereo_header();
    let mut data = [0u8; 32];
    set_bits(&mut data, 0, 9, 100);
    // Stereo scfsi: channel 0 at bit 12, channel 1 at bit 16.
    set_bits(&mut data, 12, 4, 0b1010);
    set_bits(&mut data, 16, 4, 0b0110);
    // Slot bases: 20, 79, 138, 197; all non-windowed here.
    set_bits(&mut data, 20, 12, 111);
    set_bits(&mut data, 79, 12, 222);
    set_bits(&mut data, 138, 12, 333);
    set_bits(&mut data, 197, 12, 444);
    set_bits(&mut data, 197 + 49, 4, 6);
    let si = SideInformation::new(&header, &data).unwrap();
    assert_eq!(si.main_data_begin, 100);
    assert_eq!(
        (si.scfsi0.band0, si.scfsi0.band1, si.scfsi0.band2, si.scfsi0.band3),
        (1, 0, 1, 0)
    );
    assert_eq!(
        (si.scfsi1.band0, si.scfsi1.band1, si.scfsi1.band2, si.scfsi1.band3),
        (0, 1, 1, 0)
    );
    assert_eq!(si.granule0.ch0.part2_3_length, 111);
    assert_eq!(si.granule0.ch1.part2_3_length, 222);
    assert_eq!(si.granule1.ch0.part2_3_length, 333);
    assert_eq!(si.granule1.ch1.part2_3_length, 444);
    assert_eq!(si.granule1.ch1.region0_count, 6);
    // 417 - 4 - 32, no CRC.
    assert_eq!(si.main_data_size, 381);
}

#[test]
fn inconsistent_frame_size_fails() {
    // The free bitrate (index 0) makes the frame length 0, which cannot
    // hold the header and side information.
    let header = Header::new(&[0xFF, 0xFB, 0x00, 0xC0]).unwrap();
    assert_eq!(header.bitrate(), 0);
    let data = mono_block();
    assert!(matches!(
        SideInformation::new(&header, &data),
        Err(MpError::InvalidData(_))
    ));
}

#[test]
fn side_info_checksum_reports_unvalidated() {
    assert!(!SideInformation::checksum(&[1, 2, 3]));
    assert!(!Frame::checksum(&[]));
}

#[test]
fn granule_new_is_zeroed() {
    let g = Granule::new();
    assert_eq!(g.ch0.part2_3_length, 0);
    assert_eq!(g.ch1.big_values, 0);
    assert_eq!(g.ch0.region1_count, 0);
    assert!(!g.ch1.mixed_blockflag);
}

#[test]
fn frame_decodes_the_same_fields_as_side_information() {
    let header = mono_header();
    let data = mono_block();
    let frame = Frame::new(header.clone(), 417, &data).unwrap();
    assert_eq!(frame.header, header);
    assert_eq!(frame.size, 417);
    assert_eq!(frame.main_data_begin, 257);
    let si = SideInformation::new(&header, &data).unwrap();
    assert_eq!(frame.scfsi0, si.scfsi0);
    assert_eq!(frame.scfsi1, si.scfsi1);
    assert_eq!(frame.granule0, si.granule0);
    assert_eq!(frame.granule1, si.granule1);
    assert_eq!(frame.granule0.ch0.region0_count, 8);
    assert_eq!(frame.granule1.ch0.region0_count, 11);
}

#[test]
fn frame_zero_fills_past_a_short_slice() {
    let header = stereo_header();
    let short: [u8; 2] = [0b1000_0000, 0b1000_0000];
    let frame = Frame::new(header, 417, &short).unwrap();
    // Bits 0..9 are 100000001; everything past byte 2 reads as zero.
    assert_eq!(frame.main_data_begin, 0b100000001);
    assert_eq!(frame.granule1.ch1.part2_3_length, 0);
}
