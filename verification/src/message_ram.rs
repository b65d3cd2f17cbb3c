//! Fixed-layout elements of the message RAM: transmit mailbox slots and
//! receive-FIFO slots, each two header words plus sixteen payload words.

use vstd::prelude::*;

verus! {

/// Number of payload words of one mailbox or FIFO element (64 bytes).
pub const ELEMENT_DATA_WORDS: usize = 16;

/// One transmit mailbox slot in message RAM.
#[derive(Clone, Copy, Debug)]
pub struct TxBufferElement {
    /// First header word: the identifier key.
    pub header0: u32,
    /// Second header word: length, flags and marker, packed.
    pub header1: u32,
    /// Payload words.
    pub data: [u32; 16],
}

impl TxBufferElement {
    /// An empty slot, all words zero.
    pub fn zeroed() -> (r: Self)
        ensures
            r.header0 == 0,
            r.header1 == 0,
            r.data@ =~= Seq::new(16, |i: int| 0u32),
    {
        let data: [u32; 16] = [0, 0, 0, 0, 0, 0, 0, 0, 0, 0, 0, 0, 0, 0, 0, 0];
        assert(data@ =~= Seq::new(16, |i: int| 0u32)) by {
            vstd::array::lemma_array_index(data, 0);
        }
        TxBufferElement { header0: 0, header1: 0, data }
    }
}

/// One receive-FIFO slot in message RAM.
#[derive(Clone, Copy, Debug)]
pub struct RxFifoElement {
    /// First header word: the identifier key.
    pub header0: u32,
    /// Second header word: timestamp, length, flags and filter index, packed.
    pub header1: u32,
    /// Payload words.
    pub data: [u32; 16],
}

impl RxFifoElement {
    /// An empty slot, all words zero.
    pub fn zeroed() -> (r: Self)
        ensures
            r.header0 == 0,
            r.header1 == 0,
            r.data@ =~= Seq::new(16, |i: int| 0u32),
    {
        let data: [u32; 16] = [0, 0, 0, 0, 0, 0, 0, 0, 0, 0, 0, 0, 0, 0, 0, 0];
        assert(data@ =~= Seq::new(16, |i: int| 0u32)) by {
            vstd::array::lemma_array_index(data, 0);
        }
        RxFifoElement { header0: 0, header1: 0, data }
    }
}

/// Byte `k` of payload word `w`, little-endian within the word.
pub open spec fn spec_word_byte(w: u32, k: u32) -> u8
    recommends
        k < 4,
{
    ((w >> (8 * k)) & 0xFF) as u8
}

} // verus!
