//! The peripheral capability: register blocks and message RAM as plain data,
//! grouped by the role that owns them.
//!
//! An [`Instance`] stands for exclusive ownership of one peripheral: its
//! control and status registers and its message RAM. The driver handle takes
//! it at construction and gives it back at release. Because it is plain
//! data, a simulated instance can stand in for silicon under test; where the
//! real peripheral acts on its own (acknowledging a handshake, finishing a
//! cancellation), the model completes the action at the register write that
//! triggers it.

use vstd::prelude::*;
use crate::message_ram::{RxFifoElement, TxBufferElement};

verus! {

/// Mode, protocol-control and bit-timing registers.
#[derive(Clone, Copy, Debug)]
pub struct CtrlBlock {
    /// Identity and endianness marker; matching silicon reads `0x8765_4321`.
    pub endn: u32,
    /// Initialization request; the model acknowledges it at once.
    pub init: bool,
    /// Configuration change enable.
    pub cce: bool,
    /// Power-down (clock stop) state.
    pub power_down: bool,
    /// Bus monitoring: the node never drives a dominant bit.
    pub mon: bool,
    /// Loopback of the transmit output to the receive input.
    pub lbck: bool,
    /// Restricted operation: receive and acknowledge only.
    pub restricted: bool,
    /// Access to the test facilities is enabled.
    pub test_enabled: bool,
    /// Disable automatic retransmission.
    pub dar: bool,
    /// Transmit pause between own transmissions.
    pub txp: bool,
    /// Pre-standard frame format.
    pub niso: bool,
    /// Edge filtering during bus integration.
    pub efbi: bool,
    /// Protocol exception handling enabled.
    pub pxhd: bool,
    /// CAN-FD frames allowed.
    pub fdoe: bool,
    /// Bit-rate switching allowed.
    pub brse: bool,
    /// Transmit buffers work as a queue.
    pub tfqm: bool,
    /// Nominal prescaler register field.
    pub nbrp: u16,
    /// Nominal segment-1 register field.
    pub ntseg1: u8,
    /// Nominal segment-2 register field.
    pub ntseg2: u8,
    /// Nominal jump-width register field.
    pub nsjw: u8,
    /// Data prescaler register field.
    pub dbrp: u8,
    /// Data segment-1 register field.
    pub dtseg1: u8,
    /// Data segment-2 register field.
    pub dtseg2: u8,
    /// Data jump-width register field.
    pub dsjw: u8,
}

/// Clocking, timestamp, interrupt and error-counter registers, together with
/// the filter tables of message RAM and their configured sizes.
#[derive(Clone, Copy, Debug)]
pub struct AuxBlock {
    /// Input clock divider register field.
    pub pdiv: u8,
    /// Timestamp source select register field.
    pub tss: u8,
    /// Timestamp prescaler register field.
    pub tcp: u8,
    /// Timestamp counter value; real hardware advances it on its own.
    pub tscv: u16,
    /// Interrupt enable bits.
    pub ie: u32,
    /// Interrupt line select bits: a one routes the source to line 1.
    pub ils: u32,
    /// Interrupt line 0 enabled.
    pub ile0: bool,
    /// Interrupt line 1 enabled.
    pub ile1: bool,
    /// Error logging counter.
    pub cel: u8,
    /// Receive error counter passed the error-passive limit.
    pub rp: bool,
    /// Receive error counter.
    pub rec: u8,
    /// Transmit error counter.
    pub tec: u8,
    /// Configured standard filter list size.
    pub lss: u8,
    /// Configured extended filter list size.
    pub lse: u8,
    /// Standard filter table of message RAM, one packed word per slot.
    pub flssa: [u32; 28],
    /// Extended filter table of message RAM, two packed words per slot.
    pub flesa: [ExtFilterWords; 8],
}

/// The two packed table words of one extended filter slot.
#[derive(Clone, Copy, Debug, PartialEq, Eq, Structural)]
pub struct ExtFilterWords {
    /// First word: action code over the first identifier field.
    pub w0: u32,
    /// Second word: rule code over the second identifier field.
    pub w1: u32,
}

/// Transmit status bitmaps and the three mailbox slots of message RAM.
///
/// The three per-mailbox flags mirror the request-pending, cancellation-
/// finished and transmission-occurred bitmaps. `in_transmission` models the
/// hardware's own progress: a pending frame the silicon has started to put
/// on the wire completes even if a cancellation is requested, so a cancel of
/// such a mailbox loses the race.
#[derive(Clone, Copy, Debug)]
pub struct TxBlock {
    /// A transmission request is pending, per mailbox.
    pub pending: [bool; 3],
    /// The pending frame is already being transmitted on the wire.
    pub in_transmission: [bool; 3],
    /// A cancellation request has finished, per mailbox.
    pub cancel_finished: [bool; 3],
    /// A transmission completed on the wire, per mailbox.
    pub transmission_occurred: [bool; 3],
    /// The three transmit mailbox slots.
    pub tbsa: [TxBufferElement; 3],
}

/// One receive FIFO: its status registers and its three slots of message RAM.
#[derive(Clone, Copy, Debug)]
pub struct RxBlock {
    /// Number of pending elements, at most 3.
    pub fill: u8,
    /// Index of the oldest pending element, below 3.
    pub get_index: u8,
    /// A frame was lost because the FIFO was full when it arrived.
    pub message_lost: bool,
    /// The three FIFO slots.
    pub fxsa: [RxFifoElement; 3],
}

impl RxBlock {
    /// Status fields are inside their hardware ranges and every slot decodes
    /// to a length a slot can hold.
    pub open spec fn wf(self) -> bool {
        &&& self.fill <= 3
    &&& self.get_index < 3
    &&& forall|i: int|
        0 <= i < 3 ==> ((#[trigger] self.fxsa[i].header1 >> 16) & 0x7F) <= 64
    }
}

/// Exclusive ownership of one peripheral: every register and the whole
/// message RAM, grouped by role.
#[derive(Clone, Copy, Debug)]
pub struct Instance {
    /// Mode, protocol and bit-timing registers.
    pub ctrl: CtrlBlock,
    /// Clock, timestamp, interrupt, error and filter registers.
    pub aux: AuxBlock,
    /// The transmit role's registers and mailbox slots.
    pub tx: TxBlock,
    /// Receive FIFO 0.
    pub rx0: RxBlock,
    /// Receive FIFO 1.
    pub rx1: RxBlock,
}

impl Instance {
    /// Both receive FIFOs are well formed.
    pub open spec fn wf(self) -> bool {
        self.rx0.wf() && self.rx1.wf()
    }

    /// A peripheral in its reset state: the identity marker present,
    /// everything else cleared.
    pub fn reset() -> (r: Instance)
        ensures
            r.ctrl.endn == 0x8765_4321,
            !r.ctrl.init && !r.ctrl.cce && !r.ctrl.power_down,
            !r.ctrl.mon && !r.ctrl.lbck && !r.ctrl.restricted && !r.ctrl.test_enabled,
            r.aux.ie == 0 && r.aux.ils == 0 && !r.aux.ile0 && !r.aux.ile1,
            r.aux.cel == 0 && !r.aux.rp && r.aux.rec == 0 && r.aux.tec == 0,
            r.aux.tscv == 0,
            forall|i: int| 0 <= i < 3 ==> !(#[trigger] r.tx.pending[i]),
            forall|i: int| 0 <= i < 3 ==> !(#[trigger] r.tx.in_transmission[i]),
            forall|i: int| 0 <= i < 3 ==> !(#[trigger] r.tx.cancel_finished[i]),
            forall|i: int| 0 <= i < 3 ==> !(#[trigger] r.tx.transmission_occurred[i]),
            r.rx0.fill == 0 && r.rx0.get_index == 0 && !r.rx0.message_lost,
            r.rx1.fill == 0 && r.rx1.get_index == 0 && !r.rx1.message_lost,
            r.wf(),
    {
        let tx_slot = TxBufferElement::zeroed();
        let rx_slot = RxFifoElement::zeroed();
        let rx = RxBlock {
            fill: 0,
            get_index: 0,
            message_lost: false,
            fxsa: [rx_slot, rx_slot, rx_slot],
        };
        let r = Instance {
            ctrl: CtrlBlock {
                endn: 0x8765_4321,
                init: false,
                cce: false,
                power_down: false,
                mon: false,
                lbck: false,
                restricted: false,
                test_enabled: false,
                dar: false,
                txp: false,
                niso: false,
                efbi: false,
                pxhd: false,
                fdoe: false,
                brse: false,
                tfqm: false,
                nbrp: 0,
                ntseg1: 0,
                ntseg2: 0,
                nsjw: 0,
                dbrp: 0,
                dtseg1: 0,
                dtseg2: 0,
                dsjw: 0,
            },
            aux: AuxBlock {
                pdiv: 0,
                tss: 0,
                tcp: 0,
                tscv: 0,
                ie: 0,
                ils: 0,
                ile0: false,
                ile1: false,
                cel: 0,
                rp: false,
                rec: 0,
                tec: 0,
                lss: 0,
                lse: 0,
                flssa: [
                    0,
                    0,
                    0,
                    0,
                    0,
                    0,
                    0,
                    0,
                    0,
                    0,
                    0,
                    0,
                    0,
                    0,
                    0,
                    0,
                    0,
                    0,
                    0,
                    0,
                    0,
                    0,
                    0,
                    0,
                    0,
                    0,
                    0,
                    0,
                ],
                flesa: [
                    ExtFilterWords { w0: 0, w1: 0 },
                    ExtFilterWords { w0: 0, w1: 0 },
                    ExtFilterWords { w0: 0, w1: 0 },
                    ExtFilterWords { w0: 0, w1: 0 },
                    ExtFilterWords { w0: 0, w1: 0 },
                    ExtFilterWords { w0: 0, w1: 0 },
                    ExtFilterWords { w0: 0, w1: 0 },
                    ExtFilterWords { w0: 0, w1: 0 },
                ],
            },
            tx: TxBlock {
                pending: [false, false, false],
                in_transmission: [false, false, false],
                cancel_finished: [false, false, false],
                transmission_occurred: [false, false, false],
                tbsa: [tx_slot, tx_slot, tx_slot],
            },
            rx0: rx,
            rx1: rx,
        };
        proof {
            assert(forall|i: int| 0 <= i < 3 ==> ((#[trigger] r.rx0.fxsa[i].header1 >> 16) & 0x7F)
                <= 64) by {
                assert((0u32 >> 16) & 0x7F == 0) by (bit_vector);
            }
        }
        r
    }
}

} // verus!
