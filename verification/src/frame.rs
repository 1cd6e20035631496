//! A decoded frame: the validated header, the frame size, and the
//! side-information fields, decoded from the block following the header
//! with the library's own bit cursor. The layout is the one described in
//! `side_info`, and both decoders are proved against the same
//! specification.

use vstd::prelude::*;

use crate::bitcursor::{bits_of, lemma_bits_of_bound, BitCursor};
use crate::error::MpError;
use crate::header::{ChannelMode, Header};
use crate::side_info::{
    spec_granule, spec_granule_channel, spec_scfsi, spec_scfsi_base, spec_zero_scfsi, Granule,
    GranuleChannel, ScfsiFlags,
};

verus! {

#[derive(Debug, Clone, PartialEq)]
pub struct Frame {
    pub header: Header,
    /// Size in bytes of the whole frame.
    pub size: u16,
    /// Negative byte offset to where the audio data begins, skipping the
    /// static parts of preceding frames.
    pub main_data_begin: u16,
    /// Scale-factor selection information of the first channel.
    pub scfsi0: ScfsiFlags,
    /// Scale-factor selection information of the second channel; zeroed for
    /// mono frames.
    pub scfsi1: ScfsiFlags,
    pub granule0: Granule,
    pub granule1: Granule,
}

/// The frame decoded from a header, a frame length and the
/// side-information block that follows the header.
pub open spec fn spec_frame(header: Header, length: u16, data: Seq<u8>) -> Frame {
    let mono = header@.channel is Mono;
    Frame {
        header,
        size: length,
        main_data_begin: bits_of(data, 0, 9) as u16,
        scfsi0: spec_scfsi(data, spec_scfsi_base(mono)),
        scfsi1: if mono { spec_zero_scfsi() } else { spec_scfsi(data, spec_scfsi_base(mono) + 4) },
        granule0: spec_granule(data, mono, 0),
        granule1: spec_granule(data, mono, 1),
    }
}

/// Reads the four scale-factor selection flags at the cursor.
fn read_scfsi(cursor: &mut BitCursor) -> (r: ScfsiFlags)
    requires
        old(cursor).offset() + 4 <= usize::MAX,
    ensures
        final(cursor).data() == old(cursor).data(),
        final(cursor).offset() == old(cursor).offset() + 4,
        r == spec_scfsi(old(cursor).data(), old(cursor).offset() as int),
{
    ScfsiFlags {
        band0: cursor.read_bits(1) as u8,
        band1: cursor.read_bits(1) as u8,
        band2: cursor.read_bits(1) as u8,
        band3: cursor.read_bits(1) as u8,
    }
}

/// Reads the 59-bit channel entry at the cursor, forking on the
/// window-switching flag; the region counts are derived, not read, in the
/// windowed branch.
fn read_channel(cursor: &mut BitCursor) -> (r: GranuleChannel)
    requires
        old(cursor).offset() + 59 <= usize::MAX,
    ensures
        final(cursor).data() == old(cursor).data(),
        final(cursor).offset() == old(cursor).offset() + 59,
        r == spec_granule_channel(old(cursor).data(), old(cursor).offset() as int),
{
    let part2_3_length = cursor.read_bits(12) as u16;
    let big_values = cursor.read_bits(9) as u16;
    let global_gain = cursor.read_bits(8) as u8;
    let scalefactor_compress = cursor.read_bits(4) as u8;
    let window_switching = cursor.read_bits(1) as u8;
    proof {
        lemma_bits_of_bound(old(cursor).data(), old(cursor).offset() as int + 33, 1);
        assert((1u64 << 1u64) == 2) by (bit_vector);
    }
    if window_switching == 1 {
        let block_type = cursor.read_bits(2) as u8;
        let mixed_blockflag = cursor.read_bits(1) == 1;
        let table_select0 = cursor.read_bits(5) as u8;
        let table_select1 = cursor.read_bits(5) as u8;
        let subblock_gain0 = cursor.read_bits(3) as u8;
        let subblock_gain1 = cursor.read_bits(3) as u8;
        let subblock_gain2 = cursor.read_bits(3) as u8;
        // Regions are set by convention when window switching.
        let region0_count: u8 = if block_type == 2 { 8 } else { 7 };
        let region1_count: u8 = 20 - region0_count;
        GranuleChannel {
            part2_3_length,
            big_values,
            global_gain,
            scalefactor_compress,
            window_switching,
            block_type,
            mixed_blockflag,
            table_select0,
            table_select1,
            table_select2: 0,
            subblock_gain0,
            subblock_gain1,
            subblock_gain2,
            region0_count,
            region1_count,
            preflag: cursor.read_bits(1) as u8,
            scalefactor_scale: cursor.read_bits(1) as u8,
            count1table_select: cursor.read_bits(1) as u8,
        }
    } else {
        let table_select0 = cursor.read_bits(5) as u8;
        let table_select1 = cursor.read_bits(5) as u8;
        let table_select2 = cursor.read_bits(5) as u8;
        let region0_count = cursor.read_bits(4) as u8;
        let region1_count = cursor.read_bits(3) as u8;
        GranuleChannel {
            part2_3_length,
            big_values,
            global_gain,
            scalefactor_compress,
            window_switching,
            block_type: 0,
            mixed_blockflag: false,
            table_select0,
            table_select1,
            table_select2,
            subblock_gain0: 0,
            subblock_gain1: 0,
            subblock_gain2: 0,
            region0_count,
            region1_count,
            preflag: cursor.read_bits(1) as u8,
            scalefactor_scale: cursor.read_bits(1) as u8,
            count1table_select: cursor.read_bits(1) as u8,
        }
    }
}

impl Frame {
    /// Decodes the side-information fields of one frame from the block
    /// following the header. The cursor reads zero bits past the end of a
    /// short slice, so no input is rejected; callers validate the available
    /// length against the frame size.
    pub fn new(header: Header, length: u16, data: &[u8]) -> (r: Result<Frame, MpError>)
        ensures
            r == Ok::<Frame, MpError>(spec_frame(header, length, data@)),
    {
        let mut cursor = BitCursor::new(data);
        let mono = matches!(header.channel(), ChannelMode::Mono);

        let main_data_begin = cursor.read_bits(9) as u16;

        // Private bits: consumed, not retained.
        cursor.add_offset(if mono { 5 } else { 3 });

        let scfsi0 = read_scfsi(&mut cursor);
        let scfsi1 = if mono {
            ScfsiFlags { band0: 0, band1: 0, band2: 0, band3: 0 }
        } else {
            read_scfsi(&mut cursor)
        };

        let granule0 = Granule {
            ch0: read_channel(&mut cursor),
            ch1: if mono { GranuleChannel::new() } else { read_channel(&mut cursor) },
        };
        let granule1 = Granule {
            ch0: read_channel(&mut cursor),
            ch1: if mono { GranuleChannel::new() } else { read_channel(&mut cursor) },
        };

        Ok(
            Frame {
                header,
                size: length,
                main_data_begin,
                scfsi0,
                scfsi1,
                granule0,
                granule1,
            },
        )
    }

    /// CRC-16 validation is not supported: no frame is reported as
    /// validated.
    pub fn checksum(data: &[u8]) -> (r: bool)
        ensures
            !r,
    {
        false
    }
}

} // verus!
