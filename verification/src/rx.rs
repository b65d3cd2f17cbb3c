//! The receive engine: consumption of one hardware FIFO.

use vstd::prelude::*;
use core::convert::Infallible;
use core::marker::PhantomData;
use crate::frame::{spec_rx_info_of_words, spec_rx_words, RxFrameInfo};
use crate::instance::RxBlock;
use crate::message_ram::spec_word_byte;
use crate::tx::Mailbox;

verus! {

/// Marker trait of the two receive FIFOs.
pub trait FifoNr {

}

/// Marker of receive FIFO 0.
pub struct Fifo0;

impl FifoNr for Fifo0 {

}

/// Marker of receive FIFO 1.
pub struct Fifo1;

impl FifoNr for Fifo1 {

}

/// A produced value wrapped with whether the FIFO's overrun flag was set
/// when it was read. The flag says that some frame was lost up to this
/// read, not that this element itself overran anything, so the wrapping is
/// advisory. Both arms carry the value, so neither is an error.
#[derive(Clone, Copy, Debug)]
pub enum ReceiveOverrun<T> {
    /// No overrun was flagged.
    NoOverrun(T),
    /// An overrun was flagged at some point up to this read.
    Overrun(T),
}

impl<T> ReceiveOverrun<T> {
    /// The wrapped value, whichever arm holds it.
    pub open spec fn spec_value(self) -> T {
        match self {
            ReceiveOverrun::NoOverrun(t) => t,
            ReceiveOverrun::Overrun(t) => t,
        }
    }

    /// Take the wrapped value out; unlike an `Option`, both arms carry one,
    /// so nothing can go wrong.
    pub fn unwrap(self) -> (t: T)
        ensures
            t == self.spec_value(),
    {
        match self {
            ReceiveOverrun::NoOverrun(t) => t,
            ReceiveOverrun::Overrun(t) => t,
        }
    }
}

/// The stamped info of the FIFO's oldest pending element.
pub open spec fn spec_head_info(b: RxBlock) -> RxFrameInfo {
    spec_rx_info_of_words(
        b.fxsa[b.get_index as int].header0,
        b.fxsa[b.get_index as int].header1,
    )
}

/// The payload bytes of the FIFO's oldest pending element: exactly its
/// stamped length, drawn little-endian from its payload words.
pub open spec fn spec_head_payload(b: RxBlock) -> Seq<u8> {
    Seq::new(
        spec_head_info(b).len as nat,
        |j: int| spec_word_byte(b.fxsa[b.get_index as int].data[j / 4], (j % 4) as u32),
    )
}

/// The handler accepts the FIFO's oldest pending element: its precondition
/// holds for the stamped info with exactly the stamped payload bytes.
pub open spec fn spec_handler_fits<R, F: FnOnce(RxFrameInfo, Vec<u8>) -> R>(
    b: RxBlock,
    f: F,
) -> bool {
    forall|info: RxFrameInfo, payload: Vec<u8>|
        info == spec_head_info(b) && payload@ == spec_head_payload(b) ==> call_requires(
            f,
            (info, payload),
        )
}

/// State change and result of consuming the oldest pending element: the read
/// index advanced exactly once, the fill level dropped by one, the slots and
/// the overrun flag stayed, and the result wraps a value the handler can
/// return for the element's stamped info and payload — wrapped as an overrun
/// exactly when the FIFO had flagged a loss up to this read.
pub open spec fn spec_receive_ok<R, F: FnOnce(RxFrameInfo, Vec<u8>) -> R>(
    b0: RxBlock,
    b1: RxBlock,
    f: F,
    r: nb::Result<ReceiveOverrun<R>, core::convert::Infallible>,
) -> bool {
    &&& r is Ok
    &&& b1.fill == b0.fill - 1
    &&& b1.get_index == (b0.get_index + 1) % 3
    &&& b1.message_lost == b0.message_lost
    &&& b1.fxsa == b0.fxsa
    &&& exists|res: R, payload: Vec<u8>|
        payload@ == spec_head_payload(b0) && #[trigger] call_ensures(
            f,
            (spec_head_info(b0), payload),
            res,
        ) && r->Ok_0 == (if b0.message_lost {
            ReceiveOverrun::Overrun(res)
        } else {
            ReceiveOverrun::NoOverrun(res)
        })
}

/// Interface to one receive FIFO of the peripheral.
pub struct Rx<MODE, FIFONR: FifoNr> {
    /// The FIFO's registers and slots.
    pub block: RxBlock,
    /// Mode marker.
    pub _mode: PhantomData<MODE>,
    /// FIFO marker.
    pub _nr: PhantomData<FIFONR>,
}

impl<MODE, FIFONR: FifoNr> Rx<MODE, FIFONR> {
    /// Assemble the receive role around its register block.
    pub fn assemble(block: RxBlock) -> (r: Rx<MODE, FIFONR>)
        ensures
            r.block == block,
    {
        Rx { block, _mode: PhantomData, _nr: PhantomData }
    }

    /// Hand the register block back, consuming the role.
    pub fn release(self) -> (r: RxBlock)
        ensures
            r == self.block,
    {
        self.block
    }

    /// Whether the FIFO holds no pending element.
    pub fn rx_fifo_is_empty(&self) -> (r: bool)
        ensures
            r == (self.block.fill == 0),
    {
        self.block.fill == 0
    }

    /// Whether the FIFO flagged a lost frame up to now.
    fn has_overrun(&self) -> (r: bool)
        ensures
            r == self.block.message_lost,
    {
        self.block.message_lost
    }

    /// The slot index the oldest pending element sits in.
    fn get_rx_mailbox(&self) -> (m: Mailbox)
        requires
            self.block.wf(),
        ensures
            m.spec_index() == self.block.get_index,
    {
        Mailbox::new(self.block.get_index)
    }

    /// Hand the slot back to hardware: the read index advances once and the
    /// fill level drops by one.
    fn release_mailbox(&mut self, idx: Mailbox)
        requires
            old(self).block.wf(),
            old(self).block.fill > 0,
            idx.spec_index() == old(self).block.get_index,
        ensures
            final(self).block.get_index == (old(self).block.get_index + 1) % 3,
            final(self).block.fill == old(self).block.fill - 1,
            final(self).block.message_lost == old(self).block.message_lost,
            final(self).block.fxsa == old(self).block.fxsa,
            final(self).block.wf(),
    {
        let i = idx.index();
        self.block.get_index = ((i + 1) % 3) as u8;
        self.block.fill = self.block.fill - 1;
    }

    /// Take the oldest pending element out of the FIFO, if there is one.
    ///
    /// With an empty FIFO nothing happens and would-block is reported.
    /// Otherwise the element's stamped info and exactly its stamped number
    /// of payload bytes go to `receive`; the slot is released — the read
    /// index advances exactly once — and the handler's result comes back
    /// wrapped as [`ReceiveOverrun`] according to the FIFO's overrun flag,
    /// which reflects any loss up to this read, not this element alone.
    pub fn receive<R, F: FnOnce(RxFrameInfo, Vec<u8>) -> R>(&mut self, receive: F) -> (r:
        nb::Result<ReceiveOverrun<R>, Infallible>)
        requires
            old(self).block.wf(),
            old(self).block.fill > 0 ==> spec_handler_fits(old(self).block, receive),
        ensures
            old(self).block.fill == 0 ==> r is Err && r->Err_0 == nb::Error::<
                Infallible,
            >::WouldBlock && *final(self) == *old(self),
            old(self).block.fill > 0 ==> spec_receive_ok(
                old(self).block,
                final(self).block,
                receive,
                r,
            ),
    {
        if !self.rx_fifo_is_empty() {
            let mbox = self.get_rx_mailbox();
            let idx = mbox.index();
            let h0 = self.block.fxsa[idx].header0;
            let h1 = self.block.fxsa[idx].header1;
            let info = crate::frame::rx_info_of_words(h0, h1);
            let len = info.len as usize;
            assert(len <= 64);
            let mut payload: Vec<u8> = Vec::new();
            let mut j: usize = 0;
            while j < len
                invariant
                    j <= len,
                len <= 64,
                0 <= idx < 3,
                idx == self.block.get_index,
                len == spec_head_info(self.block).len,
                payload@.len() == j,
                forall|q: int|
                    0 <= q < j ==> payload@[q] == spec_head_payload(self.block)[q],
                decreases len - j,
            {
                let w = self.block.fxsa[idx].data[j / 4];
                let b = ((w >> ((8 * (j % 4)) as u32)) & 0xFF) as u8;
                payload.push(b);
                j += 1;
            }
            proof {
                assert(payload@ =~= spec_head_payload(self.block));
            }
            let result = receive(info, payload);
            self.release_mailbox(mbox);
            if self.has_overrun() {
                Ok(ReceiveOverrun::Overrun(result))
            } else {
                Ok(ReceiveOverrun::NoOverrun(result))
            }
        } else {
            Err(nb::Error::WouldBlock)
        }
    }
}

impl RxBlock {
    /// Model of the silicon storing a newly received frame, as routed by a
    /// matching filter: the stamped info and payload words go to the slot
    /// behind the pending ones and the fill level rises by one. With a full
    /// FIFO real hardware would instead drop a frame and raise the overrun
    /// flag, so a full FIFO is left out here.
    pub fn hw_store_frame(&mut self, info: &RxFrameInfo, data: &[u32])
        requires
            old(self).wf(),
            old(self).fill < 3,
            info.wf(),
            data@.len() <= 16,
        ensures
            final(self).wf(),
            final(self).fill == old(self).fill + 1,
            final(self).get_index == old(self).get_index,
            final(self).message_lost == old(self).message_lost,
            ({
                let s = ((old(self).get_index + old(self).fill) % 3) as int;
                &&& final(self).fxsa[s].header0 == spec_rx_words(*info).0
                &&& final(self).fxsa[s].header1 == spec_rx_words(*info).1
                &&& final(self).fxsa[s].data@ == data@ + old(self).fxsa[s].data@.skip(
                    data@.len() as int,
                )
                &&& forall|q: int| 0 <= q < 3 && q != s ==> final(self).fxsa[q] == old(self).fxsa[q]
            }),
    {
        let s = ((self.get_index as usize) + (self.fill as usize)) % 3;
        let (w0, w1) = crate::frame::rx_info_to_words(info);
        self.fxsa[s].header0 = w0;
        self.fxsa[s].header1 = w1;
        let n = data.len();
        let mut j: usize = 0;
        while j < n
            invariant
                j <= n,
            n == data@.len(),
            n <= 16,
            0 <= s < 3,
            self.fxsa[s as int].header0 == w0,
            self.fxsa[s as int].header1 == w1,
            self.fxsa[s as int].data@ == data@.take(j as int) + old(self).fxsa[s as int].data@.skip(
                j as int,
            ),
            forall|q: int| 0 <= q < 3 && q != s ==> self.fxsa[q] == old(self).fxsa[q],
            self.fill == old(self).fill,
            self.get_index == old(self).get_index,
            self.message_lost == old(self).message_lost,
            decreases n - j,
        {
            let w = data[j];
            self.fxsa[s].data[j] = w;
            proof {
                assert(self.fxsa[s as int].data@ =~= data@.take(j + 1) + old(self).fxsa[
                    s as int].data@.skip(j + 1));
            }
            j += 1;
        }
        self.fill = self.fill + 1;
        proof {
            assert(self.fxsa[s as int].data@ == data@ + old(self).fxsa[s as int].data@.skip(
                data@.len() as int,
            )) by {
                assert(data@.take(data@.len() as int) =~= data@);
            }
            let hw1 = spec_rx_words(*info).1;
            crate::frame::lemma_rx_info_roundtrip(*info);
            assert(((hw1 >> 16) & 0x7F) <= 0x7F) by (bit_vector);
            assert((((hw1 >> 16) & 0x7F) as u8) == info.len);
            assert(((hw1 >> 16) & 0x7F) <= 64);
        }
    }
}

} // verus!
