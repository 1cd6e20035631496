//! The fixed bitrate and sampling-rate tables of the format.
//!
//! Bitrates are in kbps and are selected by one of five columns keyed on
//! (version, layer), then by the 4-bit bitrate index; index 0 is the "free"
//! bitrate and is an ordinary table entry. Sampling rates are in Hz, in a
//! 3-by-3 table keyed on version and the 2-bit sampling index.

use vstd::prelude::*;

use crate::header::{Layer, Version};

verus! {

/// Bitrate column for MPEG Version 1, Layer I.
pub open spec fn spec_bitrate_v1_l1(idx: int) -> u16 {
    if idx == 0 { 0 }
    else if idx == 1 { 32 }
    else if idx == 2 { 64 }
    else if idx == 3 { 96 }
    else if idx == 4 { 128 }
    else if idx == 5 { 160 }
    else if idx == 6 { 192 }
    else if idx == 7 { 224 }
    else if idx == 8 { 256 }
    else if idx == 9 { 288 }
    else if idx == 10 { 320 }
    else if idx == 11 { 352 }
    else if idx == 12 { 384 }
    else if idx == 13 { 416 }
    else { 448 }
}

/// Bitrate column for MPEG Version 1, Layer II.
pub open spec fn spec_bitrate_v1_l2(idx: int) -> u16 {
    if idx == 0 { 0 }
    else if idx == 1 { 32 }
    else if idx == 2 { 48 }
    else if idx == 3 { 56 }
    else if idx == 4 { 64 }
    else if idx == 5 { 80 }
    else if idx == 6 { 96 }
    else if idx == 7 { 112 }
    else if idx == 8 { 128 }
    else if idx == 9 { 160 }
    else if idx == 10 { 192 }
    else if idx == 11 { 224 }
    else if idx == 12 { 256 }
    else if idx == 13 { 320 }
    else { 384 }
}

/// Bitrate column for MPEG Version 1, Layer III.
pub open spec fn spec_bitrate_v1_l3(idx: int) -> u16 {
    if idx == 0 { 0 }
    else if idx == 1 { 32 }
    else if idx == 2 { 40 }
    else if idx == 3 { 48 }
    else if idx == 4 { 56 }
    else if idx == 5 { 64 }
    else if idx == 6 { 80 }
    else if idx == 7 { 96 }
    else if idx == 8 { 112 }
    else if idx == 9 { 128 }
    else if idx == 10 { 160 }
    else if idx == 11 { 192 }
    else if idx == 12 { 224 }
    else if idx == 13 { 256 }
    else { 320 }
}

/// Bitrate column for MPEG Version 2 and 2.5, Layer I.
pub open spec fn spec_bitrate_v2_l1(idx: int) -> u16 {
    if idx == 0 { 0 }
    else if idx == 1 { 32 }
    else if idx == 2 { 48 }
    else if idx == 3 { 56 }
    else if idx == 4 { 64 }
    else if idx == 5 { 80 }
    else if idx == 6 { 96 }
    else if idx == 7 { 112 }
    else if idx == 8 { 128 }
    else if idx == 9 { 144 }
    else if idx == 10 { 160 }
    else if idx == 11 { 176 }
    else if idx == 12 { 192 }
    else if idx == 13 { 224 }
    else { 256 }
}

/// Bitrate column for MPEG Version 2 and 2.5, Layer II and III.
pub open spec fn spec_bitrate_v2_l2_l3(idx: int) -> u16 {
    if idx == 0 { 0 }
    else if idx == 1 { 8 }
    else if idx == 2 { 16 }
    else if idx == 3 { 24 }
    else if idx == 4 { 32 }
    else if idx == 5 { 40 }
    else if idx == 6 { 48 }
    else if idx == 7 { 56 }
    else if idx == 8 { 64 }
    else if idx == 9 { 80 }
    else if idx == 10 { 96 }
    else if idx == 11 { 112 }
    else if idx == 12 { 128 }
    else if idx == 13 { 144 }
    else { 160 }
}

/// The table column selected by (version, layer): five columns in the order
/// V1/L1, V1/L2, V1/L3, V2/L1, V2/(L2 or L3).
pub open spec fn spec_bitrate_column(v: Version, l: Layer) -> int {
    if v is Version1 {
        if l is Layer1 { 0 } else if l is Layer2 { 1 } else { 2 }
    } else {
        if l is Layer1 { 3 } else { 4 }
    }
}

/// The bitrate in kbps for a version, layer and 4-bit bitrate index in
/// 0 ..= 14.
pub open spec fn spec_bitrate(v: Version, l: Layer, idx: int) -> u16 {
    let col = spec_bitrate_column(v, l);
    if col == 0 { spec_bitrate_v1_l1(idx) }
    else if col == 1 { spec_bitrate_v1_l2(idx) }
    else if col == 2 { spec_bitrate_v1_l3(idx) }
    else if col == 3 { spec_bitrate_v2_l1(idx) }
    else { spec_bitrate_v2_l2_l3(idx) }
}

/// The sampling rate in Hz for a version and a 2-bit sampling index in
/// 0 ..= 2 (index 3 is reserved and has no entry).
pub open spec fn spec_sampling(v: Version, idx: int) -> u16 {
    if v is Version1 {
        if idx == 0 { 44100 } else if idx == 1 { 48000 } else { 32000 }
    } else if v is Version2 {
        if idx == 0 { 22050 } else if idx == 1 { 24000 } else { 16000 }
    } else {
        if idx == 0 { 11025 } else if idx == 1 { 12000 } else { 8000 }
    }
}

fn bitrate_v1_l1(idx: u8) -> (r: u16)
    requires
        idx <= 14,
    ensures
        r == spec_bitrate_v1_l1(idx as int),
{
    match idx {
        0 => 0,
        1 => 32,
        2 => 64,
        3 => 96,
        4 => 128,
        5 => 160,
        6 => 192,
        7 => 224,
        8 => 256,
        9 => 288,
        10 => 320,
        11 => 352,
        12 => 384,
        13 => 416,
        _ => 448,
    }
}

fn bitrate_v1_l2(idx: u8) -> (r: u16)
    requires
        idx <= 14,
    ensures
        r == spec_bitrate_v1_l2(idx as int),
{
    match idx {
        0 => 0,
        1 => 32,
        2 => 48,
        3 => 56,
        4 => 64,
        5 => 80,
        6 => 96,
        7 => 112,
        8 => 128,
        9 => 160,
        10 => 192,
        11 => 224,
        12 => 256,
        13 => 320,
        _ => 384,
    }
}

fn bitrate_v1_l3(idx: u8) -> (r: u16)
    requires
        idx <= 14,
    ensures
        r == spec_bitrate_v1_l3(idx as int),
{
    match idx {
        0 => 0,
        1 => 32,
        2 => 40,
        3 => 48,
        4 => 56,
        5 => 64,
        6 => 80,
        7 => 96,
        8 => 112,
        9 => 128,
        10 => 160,
        11 => 192,
        12 => 224,
        13 => 256,
        _ => 320,
    }
}

fn bitrate_v2_l1(idx: u8) -> (r: u16)
    requires
        idx <= 14,
    ensures
        r == spec_bitrate_v2_l1(idx as int),
{
    match idx {
        0 => 0,
        1 => 32,
        2 => 48,
        3 => 56,
        4 => 64,
        5 => 80,
        6 => 96,
        7 => 112,
        8 => 128,
        9 => 144,
        10 => 160,
        11 => 176,
        12 => 192,
        13 => 224,
        _ => 256,
    }
}

fn bitrate_v2_l2_l3(idx: u8) -> (r: u16)
    requires
        idx <= 14,
    ensures
        r == spec_bitrate_v2_l2_l3(idx as int),
{
    match idx {
        0 => 0,
        1 => 8,
        2 => 16,
        3 => 24,
        4 => 32,
        5 => 40,
        6 => 48,
        7 => 56,
        8 => 64,
        9 => 80,
        10 => 96,
        11 => 112,
        12 => 128,
        13 => 144,
        _ => 160,
    }
}

/// The bitrate table entry for a version, layer and in-range bitrate index.
pub fn bitrate_entry(version: &Version, layer: &Layer, idx: u8) -> (r: u16)
    requires
        idx <= 14,
    ensures
        r == spec_bitrate(*version, *layer, idx as int),
{
    match (version, layer) {
        (Version::Version1, Layer::Layer1) => bitrate_v1_l1(idx),
        (Version::Version1, Layer::Layer2) => bitrate_v1_l2(idx),
        (Version::Version1, _) => bitrate_v1_l3(idx),
        (_, Layer::Layer1) => bitrate_v2_l1(idx),
        (_, _) => bitrate_v2_l2_l3(idx),
    }
}

/// The sampling-rate table entry for a version and an in-range sampling
/// index.
pub fn sampling_entry(version: &Version, idx: u8) -> (r: u16)
    requires
        idx <= 2,
    ensures
        r == spec_sampling(*version, idx as int),
{
    match version {
        Version::Version1 => {
            if idx == 0 { 44100 } else if idx == 1 { 48000 } else { 32000 }
        },
        Version::Version2 => {
            if idx == 0 { 22050 } else if idx == 1 { 24000 } else { 16000 }
        },
        _ => {
            if idx == 0 { 11025 } else if idx == 1 { 12000 } else { 8000 }
        },
    }
}

} // verus!
