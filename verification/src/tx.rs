//! The transmit engine: three hardware mailboxes with priority-based
//! preemption.

use vstd::prelude::*;
use core::convert::Infallible;
use core::marker::PhantomData;
use crate::fdcan::Unsupported;
use crate::frame::{spec_tx_word1, TxFrameHeader};
use crate::instance::TxBlock;

verus! {

/// One of the three transmit mailboxes.
#[derive(Clone, Copy, Debug, PartialEq, Eq, Structural)]
pub enum Mailbox {
    /// Transmit mailbox 0.
    _0,
    /// Transmit mailbox 1.
    _1,
    /// Transmit mailbox 2.
    _2,
}

impl Mailbox {
    /// The mailbox's position in the status bitmaps and the mailbox array.
    pub open spec fn spec_index(self) -> int {
        match self {
            Mailbox::_0 => 0,
            Mailbox::_1 => 1,
            Mailbox::_2 => 2,
        }
    }

    /// The mailbox's position in the status bitmaps and the mailbox array.
    pub fn index(self) -> (i: usize)
        ensures
            i == self.spec_index(),
    {
        match self {
            Mailbox::_0 => 0,
            Mailbox::_1 => 1,
            Mailbox::_2 => 2,
        }
    }

    /// The mailbox at a given position.
    pub fn new(idx: u8) -> (m: Mailbox)
        requires
            idx < 3,
        ensures
            m.spec_index() == idx,
    {
        match idx {
            0 => Mailbox::_0,
            1 => Mailbox::_1,
            _ => Mailbox::_2,
        }
    }
}

/// Every mailbox holds a pending frame: the hardware queue is full.
pub open spec fn spec_queue_full(b: TxBlock) -> bool {
    b.pending[0] && b.pending[1] && b.pending[2]
}

/// Mailbox `m` can take a frame whose identifier key is `k`: it is empty, or
/// its pending frame's key is strictly greater, that is of strictly lower
/// bus-arbitration priority. An equal key never qualifies, which protects
/// the order of same-identifier traffic.
pub open spec fn spec_available(b: TxBlock, m: int, k: u32) -> bool {
    !b.pending[m] || k < b.tbsa[m].header0
}

/// No mailbox can take a frame with key `k`: all three hold pending frames
/// of equal or higher priority.
pub open spec fn spec_would_block(b: TxBlock, k: u32) -> bool {
    !spec_available(b, 0, k) && !spec_available(b, 1, k) && !spec_available(b, 2, k)
}

/// The first mailbox, in the fixed scan order 0, 1, 2, that can take a frame
/// with key `k`.
pub open spec fn spec_first_available(b: TxBlock, k: u32) -> int {
    if spec_available(b, 0, k) {
        0
    } else if spec_available(b, 1, k) {
        1
    } else {
        2
    }
}

/// The hardware put index: the first free mailbox.
pub open spec fn spec_put_index(b: TxBlock) -> int {
    if !b.pending[0] {
        0
    } else if !b.pending[1] {
        1
    } else {
        2
    }
}

/// The mailbox a frame with key `k` goes to: the hardware put index while
/// the queue has room, else the first preemptible mailbox.
pub open spec fn spec_target(b: TxBlock, k: u32) -> int {
    if spec_queue_full(b) {
        spec_first_available(b, k)
    } else {
        spec_put_index(b)
    }
}

/// Number of payload words a frame of `len` bytes occupies.
pub open spec fn spec_data_words(len: u8) -> int {
    (len + 3) / 4
}

/// State change of writing a frame into mailbox `m`: its header words and
/// the first payload words are replaced, the tail of its payload words stays,
/// every other mailbox stays, the request-pending flag of `m` is set and the
/// new frame is not yet on the wire. The cancellation and
/// transmission-occurred flags are untouched.
pub open spec fn spec_mailbox_written(
    b0: TxBlock,
    b1: TxBlock,
    m: int,
    frame: TxFrameHeader,
    words: Seq<u32>,
) -> bool {
    &&& b1.tbsa[m].header0 == frame.id.spec_key()
    &&& b1.tbsa[m].header1 == spec_tx_word1(frame)
    &&& b1.tbsa[m].data@ == words + b0.tbsa[m].data@.skip(words.len() as int)
    &&& forall|j: int| 0 <= j < 3 && j != m ==> b1.tbsa[j] == b0.tbsa[j]
    &&& b1.pending@ == b0.pending@.update(m, true)
    &&& b1.in_transmission@ == b0.in_transmission@.update(m, false)
    &&& b1.cancel_finished == b0.cancel_finished
    &&& b1.transmission_occurred == b0.transmission_occurred
}

/// State change of an accepted transmission: the frame stands in its target
/// mailbox; if the queue was full the target's previous frame was first
/// cancelled, which marks the cancellation finished and, where the silicon
/// had already put the old frame on the wire, its transmission occurred.
/// `displaced` reports whether a pending frame was torn up.
pub open spec fn spec_transmit_accepted(
    b0: TxBlock,
    b1: TxBlock,
    frame: TxFrameHeader,
    words: Seq<u32>,
    displaced: Option<()>,
) -> bool {
    let k = frame.id.spec_key();
    let m = spec_target(b0, k);
    &&& !spec_would_block(b0, k)
    &&& b1.tbsa[m].header0 == frame.id.spec_key()
    &&& b1.tbsa[m].header1 == spec_tx_word1(frame)
    &&& b1.tbsa[m].data@ == words + b0.tbsa[m].data@.skip(words.len() as int)
    &&& forall|j: int| 0 <= j < 3 && j != m ==> b1.tbsa[j] == b0.tbsa[j]
    &&& b1.pending@ == b0.pending@.update(m, true)
    &&& b1.in_transmission@ == b0.in_transmission@.update(m, false)
    &&& b1.cancel_finished@ == if spec_queue_full(b0) {
        b0.cancel_finished@.update(m, true)
    } else {
        b0.cancel_finished@
    }
    &&& b1.transmission_occurred@ == if spec_queue_full(b0) && b0.in_transmission[m] {
        b0.transmission_occurred@.update(m, true)
    } else {
        b0.transmission_occurred@
    }
    &&& displaced is Some <==> spec_queue_full(b0) && !b0.in_transmission[m]
}

/// State change and result of a cancellation request on mailbox `m`. With
/// no pending frame nothing happens and nothing was stopped. Otherwise the
/// request clears the pending flag and marks the cancellation finished; a
/// frame the silicon had already put on the wire completes — its
/// transmission-occurred flag rises — and only a frame not yet on the wire
/// counts as stopped.
pub open spec fn spec_abort_effect(b0: TxBlock, b1: TxBlock, m: int, stopped: bool) -> bool {
    if b0.pending[m] {
        &&& stopped == !b0.in_transmission[m]
        &&& b1.pending@ == b0.pending@.update(m, false)
        &&& b1.in_transmission@ == b0.in_transmission@.update(m, false)
        &&& b1.cancel_finished@ == b0.cancel_finished@.update(m, true)
        &&& b1.transmission_occurred@ == if b0.in_transmission[m] {
            b0.transmission_occurred@.update(m, true)
        } else {
            b0.transmission_occurred@
        }
        &&& b1.tbsa == b0.tbsa
    } else {
        stopped == false && b1 == b0
    }
}

/// Interface to the transmit part of the peripheral.
pub struct Tx<MODE> {
    /// The transmit role's registers and mailbox slots.
    pub block: TxBlock,
    /// Mode marker.
    pub _mode: PhantomData<MODE>,
}

impl<MODE> Tx<MODE> {
    /// Assemble the transmit role around its register block.
    pub fn assemble(block: TxBlock) -> (r: Tx<MODE>)
        ensures
            r.block == block,
    {
        Tx { block, _mode: PhantomData }
    }

    /// Hand the register block back, consuming the role.
    pub fn release(self) -> (r: TxBlock)
        ensures
            r == self.block,
    {
        self.block
    }

    /// Whether the hardware queue reports full: every mailbox holds a
    /// pending frame.
    pub fn tx_queue_is_full(&self) -> (r: bool)
        ensures
            r == spec_queue_full(self.block),
    {
        self.block.pending[0] && self.block.pending[1] && self.block.pending[2]
    }

    /// Whether a transmission request is pending in the given mailbox.
    fn has_pending_frame(&self, idx: Mailbox) -> (r: bool)
        ensures
            r == self.block.pending[idx.spec_index()],
    {
        self.block.pending[idx.index()]
    }

    /// Whether the mailbox can take a frame with identifier key `k`: it is
    /// empty, or it holds a frame of strictly lower priority.
    fn is_available(&self, idx: Mailbox, k: u32) -> (r: bool)
        ensures
            r == spec_available(self.block, idx.spec_index(), k),
    {
        if self.has_pending_frame(idx) {
            k < self.block.tbsa[idx.index()].header0
        } else {
            true
        }
    }

    /// The hardware put index: the first free mailbox.
    fn next_free_index(&self) -> (i: u8)
        requires
            !spec_queue_full(self.block),
        ensures
            i == spec_put_index(self.block),
            i < 3,
    {
        if !self.block.pending[0] {
            0
        } else if !self.block.pending[1] {
            1
        } else {
            2
        }
    }

    /// `true` if no mailbox holds a pending request.
    pub fn is_idle(&self) -> (r: bool)
        ensures
            r == (!self.block.pending[0] && !self.block.pending[1] && !self.block.pending[2]),
    {
        !self.block.pending[0] && !self.block.pending[1] && !self.block.pending[2]
    }

    /// Write a frame into a mailbox: header words, the payload words, then
    /// the add request that hands the mailbox to hardware.
    fn write_mailbox(&mut self, idx: Mailbox, frame: TxFrameHeader, payload: &[u32])
        requires
            frame.wf(),
            payload@.len() == spec_data_words(frame.len),
        ensures
            spec_mailbox_written(
                old(self).block,
                final(self).block,
                idx.spec_index(),
                frame,
                payload@,
            ),
    {
        let i = idx.index();
        let n = payload.len();
        let (w0, w1) = crate::frame::tx_header_to_words(&frame);
        self.block.tbsa[i].header0 = w0;
        self.block.tbsa[i].header1 = w1;
        let mut j: usize = 0;
        while j < n
            invariant
                j <= n,
            n == payload@.len(),
            n <= 16,
            0 <= i < 3,
            self.block.tbsa[i as int].header0 == w0,
            self.block.tbsa[i as int].header1 == w1,
            self.block.tbsa[i as int].data@ == payload@.take(j as int) + old(self).block.tbsa[
                i as int].data@.skip(j as int),
            forall|q: int| 0 <= q < 3 && q != i ==> self.block.tbsa[q] == old(self).block.tbsa[q],
            self.block.pending == old(self).block.pending,
            self.block.in_transmission == old(self).block.in_transmission,
            self.block.cancel_finished == old(self).block.cancel_finished,
            self.block.transmission_occurred == old(self).block.transmission_occurred,
            decreases n - j,
        {
            let w = payload[j];
            self.block.tbsa[i].data[j] = w;
            proof {
                assert(self.block.tbsa[i as int].data@ =~= payload@.take(j + 1) + old(
                    self,
                ).block.tbsa[i as int].data@.skip(j + 1));
            }
            j += 1;
        }
        self.block.pending[i] = true;
        self.block.in_transmission[i] = false;
        proof {
            assert(self.block.tbsa[i as int].data@ == payload@ + old(self).block.tbsa[
                i as int].data@.skip(payload@.len() as int)) by {
                assert(payload@.take(payload@.len() as int) =~= payload@);
            }
            assert(self.block.pending@ =~= old(self).block.pending@.update(i as int, true));
            assert(self.block.in_transmission@ =~= old(self).block.in_transmission@.update(
                i as int,
                false,
            ));
        }
    }

    /// Request cancellation of the mailbox's pending frame and wait for the
    /// request to finish; the model silicon finishes it at the triggering
    /// write. Returns whether the frame was torn up before transmission: a
    /// frame already on the wire completes instead, and the cancellation
    /// loses the race. A mailbox with no pending frame is left untouched.
    pub fn abort(&mut self, idx: Mailbox) -> (stopped: bool)
        ensures
            spec_abort_effect(old(self).block, final(self).block, idx.spec_index(), stopped),
    {
        if self.has_pending_frame(idx) {
            let i = idx.index();
            let lost_race = self.block.in_transmission[i];
            self.block.pending[i] = false;
            self.block.in_transmission[i] = false;
            self.block.cancel_finished[i] = true;
            if lost_race {
                self.block.transmission_occurred[i] = true;
            }
            proof {
                assert(self.block.pending@ =~= old(self).block.pending@.update(
                    idx.spec_index(),
                    false,
                ));
                assert(self.block.in_transmission@ =~= old(self).block.in_transmission@.update(
                    idx.spec_index(),
                    false,
                ));
                assert(self.block.cancel_finished@ =~= old(self).block.cancel_finished@.update(
                    idx.spec_index(),
                    true,
                ));
                if lost_race {
                    assert(self.block.transmission_occurred@ =~= old(
                        self,
                    ).block.transmission_occurred@.update(idx.spec_index(), true));
                }
            }
            !lost_race
        } else {
            false
        }
    }

    /// Put a frame in a mailbox for transmission.
    ///
    /// While the queue has room the frame goes to the hardware put index and
    /// nothing is displaced. With a full queue the mailboxes are scanned in
    /// the fixed order 0, 1, 2 for one that is empty or holds a strictly
    /// lower-priority frame; the first such mailbox is cancelled and
    /// overwritten, and `Ok(Some(()))` reports a torn-up pending frame —
    /// `Ok(None)` if the old frame won the race and was sent anyway. If all
    /// three mailboxes hold frames of equal or higher priority the call
    /// changes nothing and reports would-block.
    pub fn transmit(&mut self, frame: TxFrameHeader, payload: &[u32]) -> (r: nb::Result<
        Option<()>,
        Infallible,
    >)
        requires
            frame.wf(),
            payload@.len() == spec_data_words(frame.len),
        ensures
            r is Err <==> spec_would_block(old(self).block, frame.id.spec_key()),
            r is Err ==> *final(self) == *old(self) && r->Err_0 == nb::Error::<
                Infallible,
            >::WouldBlock,
            r is Ok ==> spec_transmit_accepted(
                old(self).block,
                final(self).block,
                frame,
                payload@,
                r->Ok_0,
            ),
    {
        let k = frame.id.key();
        let queue_is_full = self.tx_queue_is_full();
        let (idx, displaced) = if queue_is_full {
            if self.is_available(Mailbox::_0, k) {
                (
                    Mailbox::_0,
                    if self.abort(Mailbox::_0) {
                        Some(())
                    } else {
                        None
                    },
                )
            } else if self.is_available(Mailbox::_1, k) {
                (
                    Mailbox::_1,
                    if self.abort(Mailbox::_1) {
                        Some(())
                    } else {
                        None
                    },
                )
            } else if self.is_available(Mailbox::_2, k) {
                (
                    Mailbox::_2,
                    if self.abort(Mailbox::_2) {
                        Some(())
                    } else {
                        None
                    },
                )
            } else {
                return Err(nb::Error::WouldBlock);
            }
        } else {
            let idx = self.next_free_index();
            (Mailbox::new(idx), None)
        };
        self.write_mailbox(idx, frame, payload);
        proof {
            let b0 = old(self).block;
            let m = idx.spec_index();
            assert(m == spec_target(b0, frame.id.spec_key()));
            assert(self.block.pending@ =~= b0.pending@.update(m, true));
            assert(self.block.in_transmission@ =~= b0.in_transmission@.update(m, false));
            if queue_is_full {
                assert(self.block.cancel_finished@ =~= b0.cancel_finished@.update(m, true));
                if b0.in_transmission[m] {
                    assert(self.block.transmission_occurred@ =~= b0.transmission_occurred@.update(
                        m,
                        true,
                    ));
                }
            }
        }
        Ok(displaced)
    }

    /// Clearing the request-completed flags is not provided by this
    /// peripheral's transmit role.
    pub fn clear_interrupt_flags(&mut self) -> (r: Result<(), Unsupported>)
        ensures
            r is Err,
            *final(self) == *old(self),
    {
        Err(Unsupported)
    }
}

/// The engine never reports would-block while at least one mailbox is free.
pub proof fn lemma_no_block_with_free_mailbox(b: TxBlock, k: u32)
    requires
        !b.pending[0] || !b.pending[1] || !b.pending[2],
    ensures
        !spec_would_block(b, k),
{
}

/// With a full queue the engine evicts the first preemptible mailbox in the
/// fixed scan order 0, 1, 2: every earlier mailbox holds a frame of equal or
/// higher priority than the incoming frame, and the evicted mailbox holds
/// one of strictly lower priority.
pub proof fn lemma_eviction_order(b: TxBlock, k: u32)
    requires
        spec_queue_full(b),
        !spec_would_block(b, k),
    ensures
        ({
            let m = spec_target(b, k);
            &&& 0 <= m < 3
            &&& k < b.tbsa[m].header0
            &&& forall|j: int| 0 <= j < m ==> b.tbsa[j].header0 <= k
        }),
{
}

} // verus!
