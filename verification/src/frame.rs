//! Headers of transmitted frames and info stamped on received frames, with
//! their packed message-RAM word encodings.

use vstd::prelude::*;
use crate::id::{spec_id_of_key, Id};

verus! {

/// Frame format of a single frame: classic CAN or CAN-FD.
#[derive(Clone, Copy, Debug, PartialEq, Eq, Structural)]
pub enum FrameFormat {
    /// Classic CAN frame.
    Standard,
    /// CAN-FD frame.
    Fdcan,
}

/// Header of a frame handed to the transmit engine.
#[derive(Clone, Copy, Debug)]
pub struct TxFrameHeader {
    /// Payload length in bytes, at most 64.
    pub len: u8,
    /// Frame identifier; its arbitration key decides mailbox preemption.
    pub id: Id,
    /// Classic CAN or CAN-FD.
    pub frame_format: FrameFormat,
    /// Whether the payload portion switches to the data bit rate.
    pub bit_rate_switching: bool,
    /// Optional caller tag carried through the mailbox.
    pub marker: Option<u8>,
}

impl TxFrameHeader {
    /// Length and identifier fit their hardware fields.
    pub open spec fn wf(self) -> bool {
        self.len <= 64 && self.id.wf()
    }
}

/// Info of a received frame, as stamped by hardware into the FIFO element.
#[derive(Clone, Copy, Debug)]
pub struct RxFrameInfo {
    /// Payload length in bytes, at most 64.
    pub len: u8,
    /// Frame identifier.
    pub id: Id,
    /// Classic CAN or CAN-FD.
    pub frame_format: FrameFormat,
    /// Whether the payload portion switched to the data bit rate.
    pub bit_rate_switching: bool,
    /// Timestamp counter value at reception.
    pub timestamp: u16,
    /// Index of the filter slot that matched, at most 127.
    pub filter_match_index: u8,
}

impl RxFrameInfo {
    /// All fields fit their hardware fields.
    pub open spec fn wf(self) -> bool {
        self.len <= 64 && self.id.wf() && self.filter_match_index <= 127
    }
}

/// One bit as a word, for packing flags.
pub open spec fn spec_flag(b: bool) -> u32 {
    if b {
        1
    } else {
        0
    }
}

/// Second transmit header word: marker byte in bits 0..8, marker-present flag
/// at bit 8, length in bits 16..23, bit-rate switch at bit 23, format at
/// bit 24.
pub open spec fn spec_tx_word1(h: TxFrameHeader) -> u32 {
    (match h.marker {
        Some(m) => m as u32,
        None => 0,
    }) | (spec_flag(h.marker is Some) << 8) | ((h.len as u32) << 16) | (spec_flag(
        h.bit_rate_switching,
    ) << 23) | (spec_flag(h.frame_format is Fdcan) << 24)
}

/// The transmit header as its two message-RAM words: the identifier key and
/// the packed word above.
pub open spec fn spec_tx_words(h: TxFrameHeader) -> (u32, u32) {
    (h.id.spec_key(), spec_tx_word1(h))
}

/// Decode two transmit header words back into a header.
pub open spec fn spec_tx_header_of_words(w0: u32, w1: u32) -> TxFrameHeader {
    TxFrameHeader {
        len: ((w1 >> 16) & 0x7F) as u8,
        id: spec_id_of_key(w0),
        frame_format: if (w1 >> 24) & 1 == 1 {
            FrameFormat::Fdcan
        } else {
            FrameFormat::Standard
        },
        bit_rate_switching: (w1 >> 23) & 1 == 1,
        marker: if (w1 >> 8) & 1 == 1 {
            Some((w1 & 0xFF) as u8)
        } else {
            None
        },
    }
}

/// Encode a transmit header into its two message-RAM words.
pub fn tx_header_to_words(h: &TxFrameHeader) -> (w: (u32, u32))
    ensures
        w == spec_tx_words(*h),
{
    let marker_val: u32 = match h.marker {
        Some(m) => m as u32,
        None => 0,
    };
    let present: u32 = match h.marker {
        Some(_) => 1,
        None => 0,
    };
    let brs: u32 = if h.bit_rate_switching {
        1
    } else {
        0
    };
    let fdf: u32 = match h.frame_format {
        FrameFormat::Fdcan => 1,
        FrameFormat::Standard => 0,
    };
    let w1 = marker_val | (present << 8u32) | ((h.len as u32) << 16u32) | (brs << 23u32) | (fdf
        << 24u32);
    (h.id.key(), w1)
}

/// Decode two transmit header words back into a header.
pub fn tx_header_of_words(w0: u32, w1: u32) -> (h: TxFrameHeader)
    ensures
        h == spec_tx_header_of_words(w0, w1),
{
    TxFrameHeader {
        len: ((w1 >> 16u32) & 0x7F) as u8,
        id: crate::id::id_of_key(w0),
        frame_format: if (w1 >> 24u32) & 1 == 1 {
            FrameFormat::Fdcan
        } else {
            FrameFormat::Standard
        },
        bit_rate_switching: (w1 >> 23u32) & 1 == 1,
        marker: if (w1 >> 8u32) & 1 == 1 {
            Some((w1 & 0xFF) as u8)
        } else {
            None
        },
    }
}

/// Unpacking the fields of a packed transmit word. The flag variables stand
/// for single bits.
proof fn lemma_tx_word1_fields(mv: u32, pb: u32, len: u32, bb: u32, fb: u32)
    requires
        mv < 0x100,
        pb <= 1,
        len <= 64,
        bb <= 1,
        fb <= 1,
    ensures
        ((mv | (pb << 8) | (len << 16) | (bb << 23) | (fb << 24)) & 0xFF) == mv,
        (((mv | (pb << 8) | (len << 16) | (bb << 23) | (fb << 24)) >> 8) & 1) == pb,
        (((mv | (pb << 8) | (len << 16) | (bb << 23) | (fb << 24)) >> 16) & 0x7F) == len,
        (((mv | (pb << 8) | (len << 16) | (bb << 23) | (fb << 24)) >> 23) & 1) == bb,
        (((mv | (pb << 8) | (len << 16) | (bb << 23) | (fb << 24)) >> 24) & 1) == fb,
{
    assert(mv < 0x100 && pb <= 1 && len <= 64 && bb <= 1 && fb <= 1 ==> ((mv | (pb << 8) | (len
        << 16) | (bb << 23) | (fb << 24)) & 0xFF) == mv && (((mv | (pb << 8) | (len << 16) | (bb
        << 23) | (fb << 24)) >> 8) & 1) == pb && (((mv | (pb << 8) | (len << 16) | (bb << 23) | (fb
        << 24)) >> 16) & 0x7F) == len && (((mv | (pb << 8) | (len << 16) | (bb << 23) | (fb << 24))
        >> 23) & 1) == bb && (((mv | (pb << 8) | (len << 16) | (bb << 23) | (fb << 24)) >> 24) & 1)
        == fb) by (bit_vector);
}

/// A well-formed transmit header written as two message-RAM words and read
/// back reproduces every field, the length and identifier among them.
pub proof fn lemma_tx_header_roundtrip(h: TxFrameHeader)
    requires
        h.wf(),
    ensures
        spec_tx_header_of_words(spec_tx_words(h).0, spec_tx_words(h).1) == h,
{
    crate::id::lemma_id_key_roundtrip(h.id);
    let mv: u32 = match h.marker {
        Some(m) => m as u32,
        None => 0,
    };
    lemma_tx_word1_fields(
        mv,
        spec_flag(h.marker is Some),
        h.len as u32,
        spec_flag(h.bit_rate_switching),
        spec_flag(h.frame_format is Fdcan),
    );
}

/// Second receive header word: timestamp in bits 0..16, length in bits
/// 16..23, bit-rate switch at bit 23, format at bit 24, filter-match index in
/// bits 25..32.
pub open spec fn spec_rx_word1(info: RxFrameInfo) -> u32 {
    (info.timestamp as u32) | ((info.len as u32) << 16) | (spec_flag(info.bit_rate_switching)
        << 23) | (spec_flag(info.frame_format is Fdcan) << 24) | ((info.filter_match_index as u32)
        << 25)
}

/// The receive header as its two message-RAM words.
pub open spec fn spec_rx_words(info: RxFrameInfo) -> (u32, u32) {
    (info.id.spec_key(), spec_rx_word1(info))
}

/// Decode two receive header words back into the stamped info.
pub open spec fn spec_rx_info_of_words(w0: u32, w1: u32) -> RxFrameInfo {
    RxFrameInfo {
        len: ((w1 >> 16) & 0x7F) as u8,
        id: spec_id_of_key(w0),
        frame_format: if (w1 >> 24) & 1 == 1 {
            FrameFormat::Fdcan
        } else {
            FrameFormat::Standard
        },
        bit_rate_switching: (w1 >> 23) & 1 == 1,
        timestamp: (w1 & 0xFFFF) as u16,
        filter_match_index: ((w1 >> 25) & 0x7F) as u8,
    }
}

/// Encode receive info into its two message-RAM words, as hardware stamps
/// them.
pub fn rx_info_to_words(info: &RxFrameInfo) -> (w: (u32, u32))
    ensures
        w == spec_rx_words(*info),
{
    let brs: u32 = if info.bit_rate_switching {
        1
    } else {
        0
    };
    let fdf: u32 = match info.frame_format {
        FrameFormat::Fdcan => 1,
        FrameFormat::Standard => 0,
    };
    let w1 = (info.timestamp as u32) | ((info.len as u32) << 16u32) | (brs << 23u32) | (fdf
        << 24u32) | ((info.filter_match_index as u32) << 25u32);
    (info.id.key(), w1)
}

/// Decode two receive header words back into the stamped info.
pub fn rx_info_of_words(w0: u32, w1: u32) -> (info: RxFrameInfo)
    ensures
        info == spec_rx_info_of_words(w0, w1),
{
    RxFrameInfo {
        len: ((w1 >> 16u32) & 0x7F) as u8,
        id: crate::id::id_of_key(w0),
        frame_format: if (w1 >> 24u32) & 1 == 1 {
            FrameFormat::Fdcan
        } else {
            FrameFormat::Standard
        },
        bit_rate_switching: (w1 >> 23u32) & 1 == 1,
        timestamp: (w1 & 0xFFFF) as u16,
        filter_match_index: ((w1 >> 25u32) & 0x7F) as u8,
    }
}

/// Unpacking the fields of a packed receive word.
proof fn lemma_rx_word1_fields(ts: u32, len: u32, bb: u32, fb: u32, fx: u32)
    requires
        ts < 0x10000,
        len <= 64,
        bb <= 1,
        fb <= 1,
        fx < 0x80,
    ensures
        ((ts | (len << 16) | (bb << 23) | (fb << 24) | (fx << 25)) & 0xFFFF) == ts,
        (((ts | (len << 16) | (bb << 23) | (fb << 24) | (fx << 25)) >> 16) & 0x7F) == len,
        (((ts | (len << 16) | (bb << 23) | (fb << 24) | (fx << 25)) >> 23) & 1) == bb,
        (((ts | (len << 16) | (bb << 23) | (fb << 24) | (fx << 25)) >> 24) & 1) == fb,
        (((ts | (len << 16) | (bb << 23) | (fb << 24) | (fx << 25)) >> 25) & 0x7F) == fx,
{
    assert(ts < 0x10000 && len <= 64 && bb <= 1 && fb <= 1 && fx < 0x80 ==> ((ts | (len << 16) | (
    bb << 23) | (fb << 24) | (fx << 25)) & 0xFFFF) == ts && (((ts | (len << 16) | (bb << 23) | (fb
        << 24) | (fx << 25)) >> 16) & 0x7F) == len && (((ts | (len << 16) | (bb << 23) | (fb << 24)
        | (fx << 25)) >> 23) & 1) == bb && (((ts | (len << 16) | (bb << 23) | (fb << 24) | (fx
        << 25)) >> 24) & 1) == fb && (((ts | (len << 16) | (bb << 23) | (fb << 24) | (fx << 25))
        >> 25) & 0x7F) == fx) by (bit_vector);
}

/// Well-formed receive info written as two message-RAM words and read back
/// reproduces every field.
pub proof fn lemma_rx_info_roundtrip(info: RxFrameInfo)
    requires
        info.wf(),
    ensures
        spec_rx_info_of_words(spec_rx_words(info).0, spec_rx_words(info).1) == info,
{
    crate::id::lemma_id_key_roundtrip(info.id);
    lemma_rx_word1_fields(
        info.timestamp as u32,
        info.len as u32,
        spec_flag(info.bit_rate_switching),
        spec_flag(info.frame_format is Fdcan),
        info.filter_match_index as u32,
    );
}

} // verus!
