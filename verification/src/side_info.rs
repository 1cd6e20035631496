//! Decoding of the side-information block that follows a validated header
//! (and, for protected frames, the CRC-16 field): 17 bytes for mono, 32
//! bytes otherwise. Per granule and channel, a 1-bit window-switching flag
//! selects one of two mutually exclusive field sets; in the windowed branch
//! the region counts are not read from the stream but derived.

use vstd::prelude::*;

use bitstream_io::BitRead;

use crate::bitcursor::bits_of;
use crate::error::MpError;
use crate::header::{ChannelMode, Header};

verus! {

/// Upper bound in bytes for the main (Huffman-coded) data region of one
/// frame. The format's worst case (MPEG 2.5 Layer III, 160 kbps at 8000 Hz)
/// stays under this; anything larger indicates a corrupt header/side-info
/// pairing and must fail rather than allocate unboundedly.
pub const MAX_FRAME_SIZE: u16 = 3000;

/// Number of channel entries in the side information.
pub open spec fn spec_channels(mono: bool) -> int {
    if mono { 1 } else { 2 }
}

/// Size in bytes of the side-information block.
pub open spec fn spec_side_info_size(mono: bool) -> int {
    if mono { 17 } else { 32 }
}

/// Number of private bits consumed (not retained) after `main_data_begin`.
pub open spec fn spec_private_bits(mono: bool) -> int {
    if mono { 5 } else { 3 }
}

/// Bit offset of the scale-factor selection flags.
pub open spec fn spec_scfsi_base(mono: bool) -> int {
    9 + spec_private_bits(mono)
}

/// Bit offset of the first per-(granule, channel) field group.
pub open spec fn spec_granule_base(mono: bool) -> int {
    spec_scfsi_base(mono) + 4 * spec_channels(mono)
}

/// Bit offset of the field group of granule `gr`, channel `ch`. Each group
/// is 59 bits long in either branch of the window-switching fork.
pub open spec fn spec_slot_base(mono: bool, gr: int, ch: int) -> int {
    spec_granule_base(mono) + 59 * (gr * spec_channels(mono) + ch)
}

/// Bytes of one frame that are not main data: header, side information,
/// and the CRC-16 field when the frame is protected.
pub open spec fn spec_overhead(mono: bool, protected: bool) -> int {
    4 + spec_side_info_size(mono) + if protected { 2int } else { 0int }
}

/// The Huffman-coding control fields of one channel of one granule.
#[derive(Debug, Clone, Copy, PartialEq, Eq, Structural)]
pub struct GranuleChannel {
    /// Number of bits allocated for scalefactors and Huffman-coded data.
    pub part2_3_length: u16,
    /// Number of values in the big region.
    pub big_values: u16,
    /// Quantization step size.
    pub global_gain: u8,
    /// Number of bits used for the transmission of scalefactors.
    pub scalefactor_compress: u8,
    pub window_switching: u8,
    /// Window type for the granule; 0 by convention when not switching.
    pub block_type: u8,
    pub mixed_blockflag: bool,
    /// Huffman table numbers for the big regions; the third is 0 in the
    /// windowed branch, which reads only two.
    pub table_select0: u8,
    pub table_select1: u8,
    pub table_select2: u8,
    /// Per-window gains, read only in the windowed branch.
    pub subblock_gain0: u8,
    pub subblock_gain1: u8,
    pub subblock_gain2: u8,
    /// Number of scale factor bands in the first big value region; derived,
    /// not read, in the windowed branch.
    pub region0_count: u8,
    /// Number of scale factor bands in the third big value region; derived,
    /// not read, in the windowed branch.
    pub region1_count: u8,
    pub preflag: u8,
    pub scalefactor_scale: u8,
    /// Which count1-region Huffman code table applies.
    pub count1table_select: u8,
}

/// Per-granule decode: one entry per channel; the second entry stays zeroed
/// for mono frames.
#[derive(Debug, Clone, Copy, PartialEq, Eq, Structural)]
pub struct Granule {
    pub ch0: GranuleChannel,
    pub ch1: GranuleChannel,
}

/// Scale-factor selection information: one flag per band.
#[derive(Debug, Clone, Copy, PartialEq, Eq, Structural)]
pub struct ScfsiFlags {
    pub band0: u8,
    pub band1: u8,
    pub band2: u8,
    pub band3: u8,
}

/// A channel entry with every field zeroed, as left for the unused second
/// channel of a mono frame.
pub open spec fn spec_zero_channel() -> GranuleChannel {
    GranuleChannel {
        part2_3_length: 0,
        big_values: 0,
        global_gain: 0,
        scalefactor_compress: 0,
        window_switching: 0,
        block_type: 0,
        mixed_blockflag: false,
        table_select0: 0,
        table_select1: 0,
        table_select2: 0,
        subblock_gain0: 0,
        subblock_gain1: 0,
        subblock_gain2: 0,
        region0_count: 0,
        region1_count: 0,
        preflag: 0,
        scalefactor_scale: 0,
        count1table_select: 0,
    }
}

/// The channel entry decoded from the 59 bits at `base`. The 1-bit
/// window-switching flag at `base + 33` selects the branch; both branches
/// consume the same total, but lay their fields out differently, and only
/// the non-windowed branch reads the region counts from the stream.
pub open spec fn spec_granule_channel(data: Seq<u8>, base: int) -> GranuleChannel {
    let ws = bits_of(data, base + 33, 1);
    let block_type = if ws == 1 { bits_of(data, base + 34, 2) as u8 } else { 0 };
    GranuleChannel {
        part2_3_length: bits_of(data, base, 12) as u16,
        big_values: bits_of(data, base + 12, 9) as u16,
        global_gain: bits_of(data, base + 21, 8) as u8,
        scalefactor_compress: bits_of(data, base + 29, 4) as u8,
        window_switching: ws as u8,
        block_type,
        mixed_blockflag: if ws == 1 { bits_of(data, base + 36, 1) == 1 } else { false },
        table_select0: if ws == 1 {
            bits_of(data, base + 37, 5) as u8
        } else {
            bits_of(data, base + 34, 5) as u8
        },
        table_select1: if ws == 1 {
            bits_of(data, base + 42, 5) as u8
        } else {
            bits_of(data, base + 39, 5) as u8
        },
        table_select2: if ws == 1 { 0 } else { bits_of(data, base + 44, 5) as u8 },
        subblock_gain0: if ws == 1 { bits_of(data, base + 47, 3) as u8 } else { 0 },
        subblock_gain1: if ws == 1 { bits_of(data, base + 50, 3) as u8 } else { 0 },
        subblock_gain2: if ws == 1 { bits_of(data, base + 53, 3) as u8 } else { 0 },
        region0_count: if ws == 1 {
            if block_type == 2 { 8 } else { 7 }
        } else {
            bits_of(data, base + 49, 4) as u8
        },
        region1_count: if ws == 1 {
            if block_type == 2 { 12 } else { 13 }
        } else {
            bits_of(data, base + 53, 3) as u8
        },
        preflag: bits_of(data, base + 56, 1) as u8,
        scalefactor_scale: bits_of(data, base + 57, 1) as u8,
        count1table_select: bits_of(data, base + 58, 1) as u8,
    }
}

/// The granule decoded from `data` for a mono or stereo layout.
pub open spec fn spec_granule(data: Seq<u8>, mono: bool, gr: int) -> Granule {
    Granule {
        ch0: spec_granule_channel(data, spec_slot_base(mono, gr, 0)),
        ch1: if mono {
            spec_zero_channel()
        } else {
            spec_granule_channel(data, spec_slot_base(mono, gr, 1))
        },
    }
}

/// The four scale-factor selection flags starting at bit `base`.
pub open spec fn spec_scfsi(data: Seq<u8>, base: int) -> ScfsiFlags {
    ScfsiFlags {
        band0: bits_of(data, base, 1) as u8,
        band1: bits_of(data, base + 1, 1) as u8,
        band2: bits_of(data, base + 2, 1) as u8,
        band3: bits_of(data, base + 3, 1) as u8,
    }
}

pub open spec fn spec_zero_scfsi() -> ScfsiFlags {
    ScfsiFlags { band0: 0, band1: 0, band2: 0, band3: 0 }
}

/// The whole side-information block decoded from `data`, with the given
/// main-data size.
pub open spec fn spec_side_info(data: Seq<u8>, mono: bool, main_data_size: u16) -> SideInformation {
    SideInformation {
        main_data_size,
        main_data_begin: bits_of(data, 0, 9) as u16,
        scfsi0: spec_scfsi(data, spec_scfsi_base(mono)),
        scfsi1: if mono { spec_zero_scfsi() } else { spec_scfsi(data, spec_scfsi_base(mono) + 4) },
        granule0: spec_granule(data, mono, 0),
        granule1: spec_granule(data, mono, 1),
    }
}

#[derive(Debug, Clone, PartialEq, Eq, Structural)]
pub struct SideInformation {
    /// Size in bytes of the main (Huffman-coded) data region that follows.
    pub main_data_size: u16,
    /// Negative byte offset into the bit reservoir of preceding frames.
    pub main_data_begin: u16,
    /// Scale-factor selection information of the first channel.
    pub scfsi0: ScfsiFlags,
    /// Scale-factor selection information of the second channel; zeroed for
    /// mono frames.
    pub scfsi1: ScfsiFlags,
    pub granule0: Granule,
    pub granule1: Granule,
}

/// Relies on bitstream_io's `BitReader` over a byte slice with `BigEndian`
/// bit ordering (most-significant bit first): after `BitRead::skip` of
/// `start` bits, `BitRead::read_unsigned_var` of `count` bits returns
/// exactly bits `start .. start + count` of `data`, which never fails
/// within the slice for up to 64 bits.
#[verifier::external_body]
fn read_field(data: &[u8], start: u32, count: u32) -> (r: u64)
    requires
        count <= 64,
        start + count <= data@.len() * 8,
    ensures
        r == bits_of(data@, start as int, count as nat),
{
    let mut reader = bitstream_io::BitReader::endian(data, bitstream_io::BigEndian);
    reader.skip(start).unwrap();
    reader.read_unsigned_var::<u64>(count).unwrap()
}

/// The four scale-factor selection flags starting at bit `base`.
fn read_scfsi(data: &[u8], base: u32) -> (r: ScfsiFlags)
    requires
        base + 4 <= data@.len() * 8,
        base + 4 <= u32::MAX,
    ensures
        r == spec_scfsi(data@, base as int),
{
    ScfsiFlags {
        band0: read_field(data, base, 1) as u8,
        band1: read_field(data, base + 1, 1) as u8,
        band2: read_field(data, base + 2, 1) as u8,
        band3: read_field(data, base + 3, 1) as u8,
    }
}

/// The 59-bit channel entry at bit `base`.
fn read_granule_channel(data: &[u8], base: u32) -> (r: GranuleChannel)
    requires
        base + 59 <= data@.len() * 8,
        base + 59 <= u32::MAX,
    ensures
        r == spec_granule_channel(data@, base as int),
{
    let part2_3_length = read_field(data, base, 12) as u16;
    let big_values = read_field(data, base + 12, 9) as u16;
    let global_gain = read_field(data, base + 21, 8) as u8;
    let scalefactor_compress = read_field(data, base + 29, 4) as u8;
    let window_switching = read_field(data, base + 33, 1) as u8;
    proof {
        crate::bitcursor::lemma_bits_of_bound(data@, base as int + 33, 1);
        assert((1u64 << 1u64) == 2) by (bit_vector);
    }
    if window_switching == 1 {
        let block_type = read_field(data, base + 34, 2) as u8;
        let mixed_blockflag = read_field(data, base + 36, 1) == 1;
        let table_select0 = read_field(data, base + 37, 5) as u8;
        let table_select1 = read_field(data, base + 42, 5) as u8;
        let subblock_gain0 = read_field(data, base + 47, 3) as u8;
        let subblock_gain1 = read_field(data, base + 50, 3) as u8;
        let subblock_gain2 = read_field(data, base + 53, 3) as u8;
        // Regions are set by convention when window switching.
        let region0_count: u8 = if block_type == 2 { 8 } else { 7 };
        let region1_count: u8 = 20 - region0_count;
        GranuleChannel {
            part2_3_length,
            big_values,
            global_gain,
            scalefactor_compress,
            window_switching,
            block_type,
            mixed_blockflag,
            table_select0,
            table_select1,
            table_select2: 0,
            subblock_gain0,
            subblock_gain1,
            subblock_gain2,
            region0_count,
            region1_count,
            preflag: read_field(data, base + 56, 1) as u8,
            scalefactor_scale: read_field(data, base + 57, 1) as u8,
            count1table_select: read_field(data, base + 58, 1) as u8,
        }
    } else {
        let table_select0 = read_field(data, base + 34, 5) as u8;
        let table_select1 = read_field(data, base + 39, 5) as u8;
        let table_select2 = read_field(data, base + 44, 5) as u8;
        let region0_count = read_field(data, base + 49, 4) as u8;
        let region1_count = read_field(data, base + 53, 3) as u8;
        GranuleChannel {
            part2_3_length,
            big_values,
            global_gain,
            scalefactor_compress,
            window_switching,
            block_type: 0,
            mixed_blockflag: false,
            table_select0,
            table_select1,
            table_select2,
            subblock_gain0: 0,
            subblock_gain1: 0,
            subblock_gain2: 0,
            region0_count,
            region1_count,
            preflag: read_field(data, base + 56, 1) as u8,
            scalefactor_scale: read_field(data, base + 57, 1) as u8,
            count1table_select: read_field(data, base + 58, 1) as u8,
        }
    }
}

impl GranuleChannel {
    pub fn new() -> (r: GranuleChannel)
        ensures
            r == spec_zero_channel(),
    {
        GranuleChannel {
            part2_3_length: 0,
            big_values: 0,
            global_gain: 0,
            scalefactor_compress: 0,
            window_switching: 0,
            block_type: 0,
            mixed_blockflag: false,
            table_select0: 0,
            table_select1: 0,
            table_select2: 0,
            subblock_gain0: 0,
            subblock_gain1: 0,
            subblock_gain2: 0,
            region0_count: 0,
            region1_count: 0,
            preflag: 0,
            scalefactor_scale: 0,
            count1table_select: 0,
        }
    }
}

impl Granule {
    pub fn new() -> (r: Granule)
        ensures
            r.ch0 == spec_zero_channel(),
            r.ch1 == spec_zero_channel(),
    {
        Granule { ch0: GranuleChannel::new(), ch1: GranuleChannel::new() }
    }
}

impl SideInformation {
    /// Decodes the side-information block in `data` for a validated header,
    /// checking that the implied main-data size is consistent with the
    /// frame length.
    pub fn new(header: &Header, data: &[u8]) -> (r: Result<SideInformation, MpError>)
        requires
            header.wf(),
            data@.len() >= spec_side_info_size(header@.channel is Mono),
        ensures
            ({
                let mono = header@.channel is Mono;
                let flen = header.spec_frame_length();
                let overhead = spec_overhead(mono, !header@.protection);
                &&& (r is Ok <==> overhead <= flen <= overhead + MAX_FRAME_SIZE)
                &&& (r matches Ok(si) ==> si == spec_side_info(
                    data@,
                    mono,
                    (flen - overhead) as u16,
                ))
                &&& (r is Err ==> r matches Err(MpError::InvalidData(_)))
            }),
    {
        let mono = matches!(header.channel(), ChannelMode::Mono);
        let side_info_size: u16 = if mono { 17 } else { 32 };
        let overhead: u16 = 4 + side_info_size + if !header.protection() { 2 } else { 0 };
        let frame_length = header.frame_length();
        if frame_length < overhead {
            return Err(
                MpError::InvalidData("frame too short for its side information".to_owned()),
            );
        }
        let main_data_size = frame_length - overhead;
        if main_data_size > MAX_FRAME_SIZE {
            return Err(
                MpError::InvalidData("main data size exceeds the defined maximum".to_owned()),
            );
        }

        let main_data_begin = read_field(data, 0, 9) as u16;
        let scfsi_base: u32 = if mono { 14 } else { 12 };
        let scfsi0 = read_scfsi(data, scfsi_base);
        let scfsi1 = if mono {
            ScfsiFlags { band0: 0, band1: 0, band2: 0, band3: 0 }
        } else {
            read_scfsi(data, scfsi_base + 4)
        };
        let granule_base: u32 = if mono { 18 } else { 20 };
        let stride: u32 = if mono { 59 } else { 118 };
        let granule0 = Granule {
            ch0: read_granule_channel(data, granule_base),
            ch1: if mono {
                GranuleChannel::new()
            } else {
                read_granule_channel(data, granule_base + 59)
            },
        };
        let granule1 = Granule {
            ch0: read_granule_channel(data, granule_base + stride),
            ch1: if mono {
                GranuleChannel::new()
            } else {
                read_granule_channel(data, granule_base + stride + 59)
            },
        };
        Ok(
            SideInformation {
                main_data_size,
                main_data_begin,
                scfsi0,
                scfsi1,
                granule0,
                granule1,
            },
        )
    }

    /// CRC-16 validation is not supported: no frame is reported as
    /// validated.
    pub fn checksum(data: &[u8]) -> (r: bool)
        ensures
            !r,
    {
        false
    }
}

} // verus!
