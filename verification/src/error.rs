//! Error taxonomy of the decoder front end. All decode-level failures are
//! returned as values; a bad header never aborts and never corrupts the
//! synchronizer, which can resume scanning past the failed candidate.

use vstd::prelude::*;

use crate::header::{ChannelMode, Layer};

verus! {

#[verifier::external_type_specification]
#[verifier::external_body]
pub struct ExIoError(std::io::Error);

#[derive(Debug)]
pub enum MpError {
    /// Failure of the underlying byte source, propagated as-is.
    IOError(std::io::Error),
    /// End of stream during a required read.
    EOF,
    /// A header or side-information combination with no legal interpretation.
    InvalidData(String),
    /// No sync pattern was found within the search bound.
    NoHeaderCapture,
    /// A bit-field value with no legal table entry.
    BadBit(u16),
    /// An illegal channel-mode/bitrate combination: the mode found, and the
    /// modes that would have been legal.
    InvalidMode(ChannelMode, Vec<ChannelMode>),
    /// A reserved enumerator value where a concrete one is required.
    Reserved,
}

impl From<std::io::Error> for MpError {
    fn from(e: std::io::Error) -> (r: MpError) {
        MpError::IOError(e)
    }
}

impl vstd::std_specs::convert::FromSpecImpl<std::io::Error> for MpError {
    open spec fn obeys_from_spec() -> bool {
        true
    }

    open spec fn from_spec(e: std::io::Error) -> MpError {
        MpError::IOError(e)
    }
}

/// The message carried by the error for a syntactically valid header whose
/// layer this decoder does not support past header decode.
pub fn wrong_layer(layer: &Layer) -> (r: String)
    ensures
        layer is Reserved ==> r@ == "Layer Reserved is currently unsupported"@,
        layer is Layer1 ==> r@ == "Layer Layer1 is currently unsupported"@,
        layer is Layer2 ==> r@ == "Layer Layer2 is currently unsupported"@,
        layer is Layer3 ==> r@ == "Layer Layer3 is currently unsupported"@,
{
    match layer {
        Layer::Reserved => "Layer Reserved is currently unsupported".to_owned(),
        Layer::Layer1 => "Layer Layer1 is currently unsupported".to_owned(),
        Layer::Layer2 => "Layer Layer2 is currently unsupported".to_owned(),
        Layer::Layer3 => "Layer Layer3 is currently unsupported".to_owned(),
    }
}

} // verus!
