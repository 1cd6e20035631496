//! Decoding of the fixed-format 4-byte frame header: every field is
//! validated against the bitrate and sampling-rate tables, reserved and
//! illegal combinations are rejected, and the frame length is computed from
//! the resolved rates.

use vstd::prelude::*;

use crate::error::{wrong_layer, MpError};
use crate::tables::{
    bitrate_entry, sampling_entry, spec_bitrate, spec_sampling,
};

verus! {

/// MP3 headers are 4 bytes long.
pub const HEADER_SIZE: usize = 4;

/// Size in bytes of the CRC-16 field following a protected header.
pub const CHECKSUM_SIZE: usize = 2;

#[derive(Debug, Clone, Copy, PartialEq, Eq, Structural)]
pub enum Version {
    /// Unofficial version for very low bitrate files.
    Version2_5,
    Reserved,
    /// MPEG Version 2 (ISO/IEC 13818-3).
    Version2,
    /// MPEG Version 1 (ISO/IEC 11172-3).
    Version1,
}

impl Version {
    /// The version denoted by a 2-bit header code.
    pub open spec fn from_code(code: u8) -> Version {
        if code == 0 {
            Version::Version2_5
        } else if code == 1 {
            Version::Reserved
        } else if code == 2 {
            Version::Version2
        } else {
            Version::Version1
        }
    }
}

impl From<u8> for Version {
    fn from(data: u8) -> (r: Version) {
        match data {
            0 => Version::Version2_5,
            1 => Version::Reserved,
            2 => Version::Version2,
            _ => Version::Version1,
        }
    }
}

impl vstd::std_specs::convert::FromSpecImpl<u8> for Version {
    open spec fn obeys_from_spec() -> bool {
        true
    }

    open spec fn from_spec(data: u8) -> Version {
        Version::from_code(data)
    }
}

#[derive(Debug, Clone, Copy, PartialEq, Eq, Structural)]
pub enum Layer {
    Reserved,
    Layer3,
    Layer2,
    Layer1,
}

impl Layer {
    /// The layer denoted by a 2-bit header code.
    pub open spec fn from_code(code: u8) -> Layer {
        if code == 0 {
            Layer::Reserved
        } else if code == 1 {
            Layer::Layer3
        } else if code == 2 {
            Layer::Layer2
        } else {
            Layer::Layer1
        }
    }
}

impl From<u8> for Layer {
    fn from(data: u8) -> (r: Layer) {
        match data {
            0 => Layer::Reserved,
            1 => Layer::Layer3,
            2 => Layer::Layer2,
            _ => Layer::Layer1,
        }
    }
}

impl vstd::std_specs::convert::FromSpecImpl<u8> for Layer {
    open spec fn obeys_from_spec() -> bool {
        true
    }

    open spec fn from_spec(data: u8) -> Layer {
        Layer::from_code(data)
    }
}

#[derive(Debug, Clone, Copy, PartialEq, Eq, Structural)]
pub enum ChannelMode {
    Stereo,
    JointStereo(Extension),
    /// Two independent mono channels.
    Dual,
    Mono,
}

/// The joint-stereo extension bits; their shape depends on the layer, so the
/// layer must be decoded before the channel mode.
#[derive(Debug, Clone, Copy, PartialEq, Eq, Structural)]
pub enum Extension {
    /// Layer I/II band count (minimum band up to 31).
    Bands(u8),
    /// Layer III flags: intensity stereo, MS stereo.
    Stereo(bool, bool),
}

/// The abstract value of a decoded header.
pub struct HeaderView {
    pub version: Version,
    pub layer: Layer,
    /// True means NOT CRC-protected: a header bit of 0 means a CRC-16 field
    /// follows the header.
    pub protection: bool,
    /// Bitrate in kbps, resolved from the table (never a raw index).
    pub bitrate: u16,
    /// Sampling rate in Hz, resolved from the table.
    pub sampling_rate: u16,
    /// Frame padding: one extra slot when 1.
    pub padding: u8,
    pub private: bool,
    pub copyright: bool,
    pub original: bool,
    /// 2-bit emphasis code.
    pub emphasis: u8,
    pub channel: ChannelMode,
}

/// The 2-bit version code of header byte 1.
pub open spec fn spec_version_code(b1: u8) -> u8 {
    (b1 & 0b0001_1000) >> 3
}

/// The 2-bit layer code of header byte 1.
pub open spec fn spec_layer_code(b1: u8) -> u8 {
    (b1 & 0b0000_0110) >> 1
}

/// The 4-bit bitrate index of header byte 2.
pub open spec fn spec_bitrate_index(b2: u8) -> u8 {
    (b2 & 0b1111_0000) >> 4
}

/// The 2-bit sampling index of header byte 2.
pub open spec fn spec_sampling_index(b2: u8) -> u8 {
    (b2 & 0b0000_1100) >> 2
}

/// The channel mode denoted by header byte 3 under a given layer, or `None`
/// for a joint-stereo header in a layer whose band-count extension this
/// decoder does not resolve (only Layer III proceeds past header decode).
pub open spec fn spec_channel(b3: u8, layer: Layer) -> Option<ChannelMode> {
    let code = (b3 & 0b1100_0000) >> 6;
    if code == 0 {
        Some(ChannelMode::Stereo)
    } else if code == 1 {
        if layer is Layer3 {
            Some(
                ChannelMode::JointStereo(
                    Extension::Stereo(
                        ((b3 & 0b0010_0000) >> 5) == 1,
                        ((b3 & 0b0001_0000) >> 4) == 1,
                    ),
                ),
            )
        } else {
            None
        }
    } else if code == 2 {
        Some(ChannelMode::Dual)
    } else {
        Some(ChannelMode::Mono)
    }
}

/// Layer II bitrates that are only legal in mono.
pub open spec fn spec_layer2_mono_only(kbps: u16) -> bool {
    kbps == 32 || kbps == 48 || kbps == 56 || kbps == 80
}

/// Layer II bitrates that forbid mono, and forbid joint stereo without the
/// intensity-stereo flag.
pub open spec fn spec_layer2_wide_only(kbps: u16) -> bool {
    kbps >= 224
}

/// Whether a (layer, bitrate, channel mode) combination is legal. Only
/// Layer II restricts the pairing.
pub open spec fn spec_mode_allowed(layer: Layer, kbps: u16, channel: ChannelMode) -> bool {
    if layer is Layer2 {
        if spec_layer2_mono_only(kbps) {
            channel is Mono
        } else if spec_layer2_wide_only(kbps) {
            match channel {
                ChannelMode::Mono => false,
                ChannelMode::JointStereo(Extension::Stereo(intensity, _)) => intensity,
                ChannelMode::JointStereo(Extension::Bands(_)) => false,
                _ => true,
            }
        } else {
            true
        }
    } else {
        true
    }
}

/// The channel modes that would have been legal for a Layer II bitrate whose
/// pairing was rejected. The joint-stereo entry stands for any extension
/// with the intensity-stereo flag set.
pub open spec fn spec_legal_modes(kbps: u16) -> Seq<ChannelMode> {
    if spec_layer2_mono_only(kbps) {
        seq![ChannelMode::Mono]
    } else {
        seq![
            ChannelMode::Dual,
            ChannelMode::Stereo,
            ChannelMode::JointStereo(Extension::Stereo(true, false)),
        ]
    }
}

/// Whether 4 header bytes decode to a legal header: version and layer not
/// reserved, a resolvable channel mode, an in-table bitrate index, a legal
/// bitrate/channel-mode pairing, and a non-reserved sampling index.
pub open spec fn spec_header_ok(b: Seq<u8>) -> bool {
    &&& b.len() == 4
    &&& !(Version::from_code(spec_version_code(b[1])) is Reserved)
    &&& !(Layer::from_code(spec_layer_code(b[1])) is Reserved)
    &&& spec_channel(b[3], Layer::from_code(spec_layer_code(b[1]))) is Some
    &&& spec_bitrate_index(b[2]) <= 14
    &&& spec_mode_allowed(
        Layer::from_code(spec_layer_code(b[1])),
        spec_bitrate(
            Version::from_code(spec_version_code(b[1])),
            Layer::from_code(spec_layer_code(b[1])),
            spec_bitrate_index(b[2]) as int,
        ),
        spec_channel(b[3], Layer::from_code(spec_layer_code(b[1])))->Some_0,
    )
    &&& spec_sampling_index(b[2]) != 3
}

/// The header value decoded from 4 legal header bytes.
pub open spec fn spec_header_view(b: Seq<u8>) -> HeaderView {
    let version = Version::from_code(spec_version_code(b[1]));
    let layer = Layer::from_code(spec_layer_code(b[1]));
    HeaderView {
        version,
        layer,
        protection: (b[1] & 0b0000_0001) == 1,
        bitrate: spec_bitrate(version, layer, spec_bitrate_index(b[2]) as int),
        sampling_rate: spec_sampling(version, spec_sampling_index(b[2]) as int),
        padding: (b[2] & 0b0000_0010) >> 1,
        private: (b[2] & 0b0000_0001) == 1,
        copyright: (b[3] & 0b0000_1000) == 0b0000_1000,
        original: (b[3] & 0b0000_0100) == 0b0000_0100,
        emphasis: b[3] & 0b0000_0011,
        channel: spec_channel(b[3], layer)->Some_0,
    }
}

/// The total frame length in bytes implied by a header, including the 4
/// header bytes. Layer I uses 32-sample slots (a factor of 4 and a
/// different slot constant); Layers II and III use 8-sample slots.
pub open spec fn spec_frame_length_of(h: HeaderView) -> int {
    if h.layer is Layer1 {
        (12000 * h.bitrate as int / (h.sampling_rate as int) + h.padding) * 4
    } else {
        144000 * h.bitrate as int / (h.sampling_rate as int) + h.padding
    }
}

/// Header decoding is deterministic, with no hidden state: any two headers
/// decoded from equal legal 4-byte sequences agree on every derived field.
pub proof fn lemma_header_round_trip(b1: Seq<u8>, b2: Seq<u8>, h1: Header, h2: Header)
    requires
        b1 == b2,
        spec_header_ok(b1),
        h1@ == spec_header_view(b1),
        h2@ == spec_header_view(b2),
    ensures
        h1@.version == h2@.version,
        h1@.layer == h2@.layer,
        h1@.channel == h2@.channel,
        h1@.bitrate == h2@.bitrate,
        h1@.sampling_rate == h2@.sampling_rate,
        h1@ == h2@,
{
}

#[derive(Debug, Clone, PartialEq)]
pub struct Header {
    version: Version,
    layer: Layer,
    /// True means NOT protected by the 16-bit CRC following the header
    /// (header bit 0 = protected).
    protection: bool,
    /// Bitrate (kbps).
    bitrate: u16,
    /// Sampling rate (Hz).
    sampling_rate: u16,
    /// Frame padding for one extra slot.
    padding: u8,
    /// Freely used for applications.
    private: bool,
    /// Is copyrighted (0 = not, 1 = copyrighted).
    copyright: bool,
    /// Is the original copy (0 = copy, 1 = original).
    original: bool,
    /// 00 = none, 01 = 50/15 ms, 10 = reserved, 11 = CCIT J.17.
    emphasis: u8,
    channel: ChannelMode,
}

impl View for Header {
    type V = HeaderView;

    closed spec fn view(&self) -> HeaderView {
        HeaderView {
            version: self.version,
            layer: self.layer,
            protection: self.protection,
            bitrate: self.bitrate,
            sampling_rate: self.sampling_rate,
            padding: self.padding,
            private: self.private,
            copyright: self.copyright,
            original: self.original,
            emphasis: self.emphasis,
            channel: self.channel,
        }
    }
}

impl Header {
    /// Every constructed header has concrete resolved rates: reserved or
    /// out-of-table values never yield a `Header`.
    pub open spec fn wf(self) -> bool {
        &&& !(self@.version is Reserved)
        &&& !(self@.layer is Reserved)
        &&& self@.bitrate <= 448
        &&& 8000 <= self@.sampling_rate <= 48000
        &&& self@.padding <= 1
    }

    /// Decodes and validates exactly 4 header bytes. The caller (the frame
    /// synchronizer) has already checked the sync pattern; it is not
    /// re-verified here.
    pub fn new(data: &[u8]) -> (r: Result<Header, MpError>)
        ensures
            r is Ok <==> spec_header_ok(data@),
            r matches Ok(h) ==> h@ == spec_header_view(data@) && h.wf(),
            data@.len() != 4 ==> r matches Err(MpError::InvalidData(_)),
            ({
                let version = Version::from_code(spec_version_code(data@[1]));
                let layer = Layer::from_code(spec_layer_code(data@[1]));
                let idx = spec_bitrate_index(data@[2]);
                let kbps = spec_bitrate(version, layer, idx as int);
                &&& (data@.len() == 4 && version is Reserved ==> r == Err::<Header, MpError>(
                    MpError::Reserved,
                ))
                &&& (data@.len() == 4 && !(version is Reserved) && layer is Reserved ==> r
                    == Err::<Header, MpError>(MpError::Reserved))
                &&& (data@.len() == 4 && !(version is Reserved) && !(layer is Reserved)
                    && spec_channel(data@[3], layer) is None ==> r matches Err(
                    MpError::InvalidData(_),
                ))
                &&& (data@.len() == 4 && !(version is Reserved) && !(layer is Reserved)
                    && spec_channel(data@[3], layer) is Some && idx > 14 ==> r
                    == Err::<Header, MpError>(MpError::BadBit(idx as u16)))
                &&& (data@.len() == 4 && !(version is Reserved) && !(layer is Reserved)
                    && spec_channel(data@[3], layer) is Some && idx <= 14 && !spec_mode_allowed(
                    layer,
                    kbps,
                    spec_channel(data@[3], layer)->Some_0,
                ) ==> (r matches Err(MpError::InvalidMode(got, expected)) && got == spec_channel(
                    data@[3],
                    layer,
                )->Some_0 && expected@ == spec_legal_modes(kbps)))
                &&& (data@.len() == 4 && !(version is Reserved) && !(layer is Reserved)
                    && spec_channel(data@[3], layer) is Some && idx <= 14 && spec_mode_allowed(
                    layer,
                    kbps,
                    spec_channel(data@[3], layer)->Some_0,
                ) && spec_sampling_index(data@[2]) == 3 ==> r == Err::<Header, MpError>(
                    MpError::Reserved,
                ))
            }),
    {
        if data.len() != 4 {
            return Err(MpError::InvalidData("header must be exactly 4 bytes".to_owned()));
        }
        let b1 = data[1];
        let b2 = data[2];
        let b3 = data[3];
        proof {
            assert((b2 & 0b0000_1100) >> 2 <= 3) by (bit_vector);
            assert((b2 & 0b0000_0010) >> 1 <= 1) by (bit_vector);
        }

        let version = Version::from((b1 & 0b0001_1000) >> 3);
        let layer = Layer::from((b1 & 0b0000_0110) >> 1);
        if matches!(version, Version::Reserved) {
            return Err(MpError::Reserved);
        }
        if matches!(layer, Layer::Reserved) {
            return Err(MpError::Reserved);
        }

        let protection: bool = (b1 & 0b0000_0001) == 1;
        let bitrate_index: u8 = (b2 & 0b1111_0000) >> 4;
        let sampling_index: u8 = (b2 & 0b0000_1100) >> 2;
        let padding: u8 = (b2 & 0b0000_0010) >> 1;
        let private: bool = (b2 & 0b0000_0001) == 1;

        let channel = match (b3 & 0b1100_0000) >> 6 {
            0 => ChannelMode::Stereo,
            1 => {
                match layer {
                    Layer::Layer3 => {
                        let intensity = ((b3 & 0b0010_0000) >> 5) == 1;
                        let ms = ((b3 & 0b0001_0000) >> 4) == 1;
                        ChannelMode::JointStereo(Extension::Stereo(intensity, ms))
                    },
                    _ => {
                        // Joint-stereo band counts of the other layers are
                        // not resolved: those layers are rejected here.
                        return Err(MpError::InvalidData(wrong_layer(&layer)));
                    },
                }
            },
            2 => ChannelMode::Dual,
            _ => ChannelMode::Mono,
        };
        let copyright = (b3 & 0b0000_1000) == 0b0000_1000;
        let original = (b3 & 0b0000_0100) == 0b0000_0100;
        let emphasis = b3 & 0b0000_0011;

        let bitrate = match Header::lookup_bitrate(bitrate_index, &version, &layer, &channel) {
            Ok(v) => v,
            Err(e) => {
                return Err(e);
            },
        };
        let sampling_rate = match Header::lookup_sampling_rate(sampling_index, &version) {
            Ok(v) => v,
            Err(e) => {
                return Err(e);
            },
        };

        Ok(
            Header {
                version,
                layer,
                protection,
                bitrate,
                sampling_rate,
                padding,
                private,
                copyright,
                original,
                emphasis,
                channel,
            },
        )
    }

    /// Resolves the 4-bit bitrate index against the (version, layer) table
    /// column and checks the Layer II channel-mode restrictions.
    pub fn lookup_bitrate(bit: u8, version: &Version, layer: &Layer, channel: &ChannelMode) -> (r:
        Result<u16, MpError>)
        ensures
            ({
                let reserved = *version is Reserved || *layer is Reserved;
                let kbps = spec_bitrate(*version, *layer, bit as int);
                &&& (reserved ==> r == Err::<u16, MpError>(MpError::Reserved))
                &&& (!reserved && bit > 14 ==> r == Err::<u16, MpError>(
                    MpError::BadBit(bit as u16),
                ))
                &&& (!reserved && bit <= 14 && !spec_mode_allowed(*layer, kbps, *channel) ==> (
                r matches Err(MpError::InvalidMode(got, expected)) && got == *channel && expected@
                    == spec_legal_modes(kbps)))
                &&& (!reserved && bit <= 14 && spec_mode_allowed(*layer, kbps, *channel) ==> r
                    == Ok::<u16, MpError>(kbps))
            }),
    {
        if matches!(version, Version::Reserved) || matches!(layer, Layer::Reserved) {
            return Err(MpError::Reserved);
        }
        if bit > 14 {
            // The bitrate index is out of the table: index 15 is reserved.
            return Err(MpError::BadBit(bit as u16));
        }
        let kbps = bitrate_entry(version, layer, bit);

        if matches!(layer, Layer::Layer2) {
            if kbps == 32 || kbps == 48 || kbps == 56 || kbps == 80 {
                if !matches!(channel, ChannelMode::Mono) {
                    let mut expected: Vec<ChannelMode> = Vec::new();
                    expected.push(ChannelMode::Mono);
                    proof {
                        assert(expected@ =~= spec_legal_modes(kbps));
                    }
                    return Err(MpError::InvalidMode(*channel, expected));
                }
            } else if kbps >= 224 {
                let allowed = match channel {
                    ChannelMode::Mono => false,
                    ChannelMode::JointStereo(Extension::Stereo(intensity, _)) => *intensity,
                    ChannelMode::JointStereo(Extension::Bands(_)) => false,
                    _ => true,
                };
                if !allowed {
                    let mut expected: Vec<ChannelMode> = Vec::new();
                    expected.push(ChannelMode::Dual);
                    expected.push(ChannelMode::Stereo);
                    expected.push(ChannelMode::JointStereo(Extension::Stereo(true, false)));
                    proof {
                        assert(expected@ =~= spec_legal_modes(kbps));
                    }
                    return Err(MpError::InvalidMode(*channel, expected));
                }
            }
        }
        Ok(kbps)
    }

    /// Resolves the 2-bit sampling index against the row selected by the
    /// version; index 3 is always reserved.
    pub fn lookup_sampling_rate(bit: u8, version: &Version) -> (r: Result<u16, MpError>)
        requires
            bit <= 3,
        ensures
            bit == 3 ==> r == Err::<u16, MpError>(MpError::Reserved),
            bit < 3 && *version is Reserved ==> r == Err::<u16, MpError>(MpError::Reserved),
            bit < 3 && !(*version is Reserved) ==> r == Ok::<u16, MpError>(
                spec_sampling(*version, bit as int),
            ),
    {
        if bit == 3 {
            return Err(MpError::Reserved);
        }
        if matches!(version, Version::Reserved) {
            return Err(MpError::Reserved);
        }
        Ok(sampling_entry(version, bit))
    }

    /// The total frame length in bytes implied by this header, including
    /// the 4 header bytes.
    pub open spec fn spec_frame_length(self) -> int {
        spec_frame_length_of(self@)
    }

    /// Returns the frame length in bytes based on this header.
    pub fn frame_length(&self) -> (r: u16)
        requires
            self.wf(),
        ensures
            r == self.spec_frame_length(),
    {
        let bitrate = self.bitrate as u32;
        let sampling = self.sampling_rate as u32;
        let padding = self.padding as u32;
        if matches!(self.layer, Layer::Layer1) {
            proof {
                assert(12000 * self@.bitrate as int / (self@.sampling_rate as int) <= 672) by (nonlinear_arith)
                    requires
                        self@.bitrate <= 448,
                        self@.sampling_rate >= 8000,
                ;
            }
            ((12000 * bitrate / sampling + padding) * 4) as u16
        } else {
            proof {
                assert(144000 * self@.bitrate as int / (self@.sampling_rate as int) <= 8064) by (nonlinear_arith)
                    requires
                        self@.bitrate <= 448,
                        self@.sampling_rate >= 8000,
                ;
            }
            (144000 * bitrate / sampling + padding) as u16
        }
    }

    #[inline]
    pub fn version(&self) -> (r: &Version)
        ensures
            *r == self@.version,
    {
        &self.version
    }

    #[inline]
    pub fn layer(&self) -> (r: &Layer)
        ensures
            *r == self@.layer,
    {
        &self.layer
    }

    #[inline]
    pub fn protection(&self) -> (r: bool)
        ensures
            r == self@.protection,
    {
        self.protection
    }

    #[inline]
    pub fn bitrate(&self) -> (r: u16)
        ensures
            r == self@.bitrate,
    {
        self.bitrate
    }

    #[inline]
    pub fn sampling_rate(&self) -> (r: u16)
        ensures
            r == self@.sampling_rate,
    {
        self.sampling_rate
    }

    #[inline]
    pub fn padding(&self) -> (r: u8)
        ensures
            r == self@.padding,
    {
        self.padding
    }

    #[inline]
    pub fn private(&self) -> (r: bool)
        ensures
            r == self@.private,
    {
        self.private
    }

    #[inline]
    pub fn copyright(&self) -> (r: bool)
        ensures
            r == self@.copyright,
    {
        self.copyright
    }

    #[inline]
    pub fn original(&self) -> (r: bool)
        ensures
            r == self@.original,
    {
        self.original
    }

    #[inline]
    pub fn channel(&self) -> (r: &ChannelMode)
        ensures
            *r == self@.channel,
    {
        &self.channel
    }
}

} // verus!
