//! The frame synchronizer: scans an owned byte stream for the 11-bit sync
//! pattern, verifies every hit by a full header decode, recovers from false
//! positives by resuming one byte further, and decodes the
//! side-information block of each synchronized frame. Drivers that read
//! from a file or socket hand the bytes over as a plain buffer.

use vstd::prelude::*;

use vstd::slice::slice_subrange;

use crate::error::MpError;
use crate::header::{
    spec_frame_length_of, spec_header_ok, spec_header_view, ChannelMode, Header,
};
use crate::side_info::{
    spec_overhead, spec_side_info, spec_side_info_size, SideInformation, MAX_FRAME_SIZE,
};

verus! {

/// How many bytes ahead are scanned before giving up on header seeking
/// (10 kB).
pub const HEADER_LIMIT: usize = 10240;

/// The 11-bit sync pattern at byte offset `p`: a full first byte and the
/// top three bits of the second.
pub open spec fn spec_sync_at(data: Seq<u8>, p: int) -> bool {
    &&& data[p] == 0xFF
    &&& (data[p + 1] & 0xE0) == 0xE0
}

/// A trustworthy header at byte offset `p`: the sync pattern followed by
/// four bytes that decode to a legal header. A sync hit whose bytes do not
/// decode is a false positive, not a stream error.
pub open spec fn spec_candidate_ok(data: Seq<u8>, p: int) -> bool {
    &&& p + 4 <= data.len()
    &&& spec_sync_at(data, p)
    &&& spec_header_ok(data.subrange(p, p + 4))
}

/// Where a failed scan that started at `start` stops: just past the last
/// position the byte and search bounds allowed to be tested.
pub open spec fn spec_scan_end(len: int, start: int, limit: int) -> int {
    let cap = if start + limit <= len { start + limit } else { len };
    if cap - 3 > start { cap - 3 } else { start }
}

/// The first trustworthy header of the scan that started at `start` stands
/// at `p`, within the search bound.
pub open spec fn spec_found_at(data: Seq<u8>, start: int, limit: int, p: int) -> bool {
    &&& start <= p
    &&& p + 4 <= data.len()
    &&& p + 4 - start <= limit
    &&& spec_candidate_ok(data, p)
    &&& forall|q: int| start <= q < p ==> !spec_candidate_ok(data, q)
}

/// A failed scan is bounded: it never consumes more than `limit` bytes
/// past its starting position (each tested position reads a 4-byte
/// window), and never stops before that position.
pub proof fn lemma_scan_end_bounded(len: int, start: int, limit: int)
    requires
        0 <= start,
        0 <= limit,
    ensures
        start <= spec_scan_end(len, start, limit),
        spec_scan_end(len, start, limit) == start || spec_scan_end(len, start, limit) + 3 <= start
            + limit,
{
}

pub struct FrameReader {
    /// The owned byte source: file, stream or array contents (preferably
    /// buffered by the driver).
    data: Vec<u8>,
    /// Read position within `data`.
    pos: usize,
}

impl FrameReader {
    /// The bytes of the owned source.
    pub closed spec fn stream(self) -> Seq<u8> {
        self.data@
    }

    /// The current read position.
    pub closed spec fn spec_position(self) -> usize {
        self.pos
    }

    /// The position never passes the end of the stream.
    pub open spec fn wf(self) -> bool {
        self.spec_position() <= self.stream().len()
    }

    pub fn new(data: Vec<u8>) -> (r: FrameReader)
        ensures
            r.stream() == data@,
            r.spec_position() == 0,
            r.wf(),
    {
        FrameReader { data, pos: 0 }
    }

    /// The current read position.
    pub fn position(&self) -> (r: usize)
        ensures
            r == self.spec_position(),
    {
        self.pos
    }

    /// Finds the next MP3 header within a bound of `limit` scanned bytes.
    ///
    /// Every sync hit is verified by a full header decode; a decode failure
    /// resumes the scan at the next byte. On success the position stands
    /// just past the 4 header bytes; on failure it stands at the end of the
    /// scanned range, with `NoHeaderCapture` when the search bound stopped
    /// the scan and `EOF` when the stream ended first.
    pub fn find_header(&mut self, limit: usize) -> (r: Result<(usize, Header), MpError>)
        requires
            old(self).wf(),
        ensures
            final(self).stream() == old(self).stream(),
            final(self).wf(),
            match r {
                Ok((p, h)) => {
                    &&& spec_found_at(old(self).stream(), old(self).spec_position() as int, limit as int, p as int)
                    &&& h@ == spec_header_view(old(self).stream().subrange(p as int, p + 4))
                    &&& h.wf()
                    &&& final(self).spec_position() == p + 4
                },
                Err(e) => {
                    &&& final(self).spec_position() == spec_scan_end(
                        old(self).stream().len() as int,
                        old(self).spec_position() as int,
                        limit as int,
                    )
                    &&& forall|q: int|
                        old(self).spec_position() <= q < final(self).spec_position()
                            ==> !spec_candidate_ok(old(self).stream(), q)
                    &&& (e is NoHeaderCapture || e is EOF)
                    &&& (e is NoHeaderCapture <==> limit < 4 || old(self).spec_position() + limit
                        <= old(self).stream().len())
                },
            },
    {
        let ghost stream = self.data@;
        let start = self.pos;
        let mut p = start;
        loop
            invariant
                stream == old(self).stream(),
                start == old(self).spec_position(),
                self.data@ == stream,
                self.pos == start,
                start <= p,
                p <= start + limit,
                start <= stream.len(),
                forall|q: int| start <= q < p ==> !spec_candidate_ok(stream, q),
                p > start ==> limit >= 4 && p - start <= limit - 3 && p + 3 <= stream.len(),
            decreases start + limit - p,
        {
            if limit < 4 || p - start > limit - 4 {
                self.pos = p;
                return Err(MpError::NoHeaderCapture);
            }
            if self.data.len() < 4 || p > self.data.len() - 4 {
                self.pos = p;
                return Err(MpError::EOF);
            }
            if self.data[p] == 0xFF && (self.data[p + 1] & 0xE0) == 0xE0 {
                let window = slice_subrange(self.data.as_slice(), p, p + 4);
                match Header::new(window) {
                    Ok(header) => {
                        self.pos = p + 4;
                        return Ok((p, header));
                    },
                    Err(_) => {
                        // A false sync inside ordinary data: keep scanning
                        // from the next byte, not past the whole window.
                    },
                }
            }
            proof {
                assert(!spec_candidate_ok(stream, p as int));
            }
            p = p + 1;
        }
    }

    /// Reads the CRC-16 field (for protected frames) and the
    /// side-information block that follow the header just found, advancing
    /// the position only on success.
    fn construct_side_information(&mut self, header: &Header) -> (r: Result<
        SideInformation,
        MpError,
    >)
        requires
            old(self).wf(),
            header.wf(),
        ensures
            final(self).stream() == old(self).stream(),
            final(self).wf(),
            ({
                let mono = header@.channel is Mono;
                let crc: int = if !header@.protection { 2 } else { 0 };
                let n = spec_side_info_size(mono);
                let begin = old(self).spec_position() + crc;
                let flen = spec_frame_length_of(header@);
                let overhead = spec_overhead(mono, !header@.protection);
                match r {
                    Ok(si) => {
                        &&& begin + n <= old(self).stream().len()
                        &&& overhead <= flen <= overhead + MAX_FRAME_SIZE
                        &&& si == spec_side_info(
                            old(self).stream().subrange(begin, begin + n),
                            mono,
                            (flen - overhead) as u16,
                        )
                        &&& final(self).spec_position() == begin + n
                    },
                    Err(e) => {
                        &&& final(self).spec_position() == old(self).spec_position()
                        &&& (begin + n > old(self).stream().len() ==> e is EOF)
                        &&& (begin + n <= old(self).stream().len() ==> (e matches MpError::InvalidData(_)
                            && !(overhead <= flen <= overhead + MAX_FRAME_SIZE)))
                    },
                }
            }),
    {
        let mono = matches!(header.channel(), ChannelMode::Mono);
        let crc: usize = if !header.protection() { 2 } else { 0 };
        let n: usize = if mono { 17 } else { 32 };
        if self.data.len() - self.pos < crc + n {
            return Err(MpError::EOF);
        }
        let begin = self.pos + crc;
        let block = slice_subrange(self.data.as_slice(), begin, begin + n);
        match SideInformation::new(header, block) {
            Ok(si) => {
                self.pos = begin + n;
                Ok(si)
            },
            Err(e) => Err(e),
        }
    }

    /// Performs one unit of work: synchronizes on the next header within
    /// the search bound, then decodes the side information that follows
    /// it. Returns the byte offset of the header, the header, and the side
    /// information; the main data of `side_info.main_data_size` bytes
    /// follows at the final position.
    ///
    /// A side-information failure leaves the position one byte past the
    /// failed sync candidate, so scanning can resume.
    pub fn advance(&mut self) -> (r: Result<(usize, Header, SideInformation), MpError>)
        requires
            old(self).wf(),
        ensures
            final(self).stream() == old(self).stream(),
            final(self).wf(),
            ({
                let stream = old(self).stream();
                let start = old(self).spec_position() as int;
                match r {
                    Ok((p, h, si)) => {
                        &&& spec_found_at(stream, start, HEADER_LIMIT as int, p as int)
                        &&& h@ == spec_header_view(stream.subrange(p as int, p + 4))
                        &&& h.wf()
                        &&& ({
                            let mono = h@.channel is Mono;
                            let crc: int = if !h@.protection { 2 } else { 0 };
                            let n = spec_side_info_size(mono);
                            let flen = spec_frame_length_of(h@);
                            let overhead = spec_overhead(mono, !h@.protection);
                            &&& p + 4 + crc + n <= stream.len()
                            &&& overhead <= flen <= overhead + MAX_FRAME_SIZE
                            &&& si == spec_side_info(
                                stream.subrange(p + 4 + crc, p + 4 + crc + n),
                                mono,
                                (flen - overhead) as u16,
                            )
                            &&& final(self).spec_position() == p + 4 + crc + n
                        })
                    },
                    Err(e) => {
                        ||| ({
                            &&& (e is NoHeaderCapture || e is EOF)
                            &&& final(self).spec_position() == spec_scan_end(
                                stream.len() as int,
                                start,
                                HEADER_LIMIT as int,
                            )
                            &&& forall|q: int|
                                start <= q < final(self).spec_position() ==> !spec_candidate_ok(
                                    stream,
                                    q,
                                )
                        })
                        ||| (exists|p: int|
                            {
                                &&& #[trigger] spec_found_at(stream, start, HEADER_LIMIT as int, p)
                                &&& final(self).spec_position() == p + 1
                                &&& ({
                                    let hv = spec_header_view(stream.subrange(p, p + 4));
                                    let mono = hv.channel is Mono;
                                    let crc: int = if !hv.protection { 2 } else { 0 };
                                    let n = spec_side_info_size(mono);
                                    let flen = spec_frame_length_of(hv);
                                    let overhead = spec_overhead(mono, !hv.protection);
                                    &&& (p + 4 + crc + n > stream.len() ==> e is EOF)
                                    &&& (p + 4 + crc + n <= stream.len() ==> (
                                    e matches MpError::InvalidData(_) && !(overhead <= flen
                                        <= overhead + MAX_FRAME_SIZE)))
                                })
                            })
                    },
                }
            }),
    {
        let (p, header) = match self.find_header(HEADER_LIMIT) {
            Ok(v) => v,
            Err(e) => {
                return Err(e);
            },
        };
        match self.construct_side_information(&header) {
            Ok(si) => Ok((p, header, si)),
            Err(e) => {
                // Do not let one bad frame corrupt the synchronizer:
                // resume scanning one byte past the failed candidate.
                self.pos = p + 1;
                Err(e)
            },
        }
    }
}

} // verus!
