//! Interrupt sources, interrupt lines, and sets of interrupt sources.

use vstd::prelude::*;

verus! {

/// Mask of all defined interrupt bits.
pub const INTERRUPTS_ALL: u32 = 0x00FF_FFFF;

/// One interrupt source of the peripheral.
#[derive(Clone, Copy, Debug, PartialEq, Eq, Structural)]
pub enum Interrupt {
    /// New message stored in receive FIFO 0.
    RxFifo0NewMsg,
    /// Receive FIFO 0 is full.
    RxFifo0Full,
    /// A message was lost because receive FIFO 0 was full.
    RxFifo0MessageLost,
    /// New message stored in receive FIFO 1.
    RxFifo1NewMsg,
    /// Receive FIFO 1 is full.
    RxFifo1Full,
    /// A message was lost because receive FIFO 1 was full.
    RxFifo1MessageLost,
    /// A high-priority message was received.
    RxHighPrio,
    /// A transmission completed.
    TransmissionCompleted,
    /// A transmission cancellation finished.
    TransmissionCancelled,
    /// The transmit queue became empty.
    TxFifoEmpty,
    /// New entry in the transmit event FIFO.
    TxEventNew,
    /// The transmit event FIFO is full.
    TxEventFull,
    /// An element of the transmit event FIFO was lost.
    TxEventLost,
    /// The timestamp counter wrapped around.
    TimestampWraparound,
    /// A message-RAM access failed.
    MessageRamAccessFailure,
    /// The timeout counter reached zero.
    TimeoutOccurred,
    /// The error-logging counter overflowed.
    ErrorLoggingOverflow,
    /// The node entered error-passive state.
    ErrorPassive,
    /// An error counter reached the warning limit.
    WarningStatus,
    /// The node entered bus-off state.
    BusOff,
    /// The RAM watchdog expired.
    WatchdogInterrupt,
    /// Protocol error in the arbitration phase.
    ProtErrArbitration,
    /// Protocol error in the data phase.
    ProtErrData,
    /// Access to a reserved address occurred.
    AccessReservedAddress,
}

impl Interrupt {
    /// Position of this source in the interrupt registers.
    pub open spec fn spec_bit(self) -> u32 {
        match self {
            Interrupt::RxFifo0NewMsg => 0x1,
            Interrupt::RxFifo0Full => 0x2,
            Interrupt::RxFifo0MessageLost => 0x4,
            Interrupt::RxFifo1NewMsg => 0x8,
            Interrupt::RxFifo1Full => 0x10,
            Interrupt::RxFifo1MessageLost => 0x20,
            Interrupt::RxHighPrio => 0x40,
            Interrupt::TransmissionCompleted => 0x80,
            Interrupt::TransmissionCancelled => 0x100,
            Interrupt::TxFifoEmpty => 0x200,
            Interrupt::TxEventNew => 0x400,
            Interrupt::TxEventFull => 0x800,
            Interrupt::TxEventLost => 0x1000,
            Interrupt::TimestampWraparound => 0x2000,
            Interrupt::MessageRamAccessFailure => 0x4000,
            Interrupt::TimeoutOccurred => 0x8000,
            Interrupt::ErrorLoggingOverflow => 0x1_0000,
            Interrupt::ErrorPassive => 0x2_0000,
            Interrupt::WarningStatus => 0x4_0000,
            Interrupt::BusOff => 0x8_0000,
            Interrupt::WatchdogInterrupt => 0x10_0000,
            Interrupt::ProtErrArbitration => 0x20_0000,
            Interrupt::ProtErrData => 0x40_0000,
            Interrupt::AccessReservedAddress => 0x80_0000,
        }
    }

    /// The bit of this source in the interrupt registers.
    pub fn bit(self) -> (b: u32)
        ensures
            b == self.spec_bit(),
    {
        match self {
            Interrupt::RxFifo0NewMsg => 0x1,
            Interrupt::RxFifo0Full => 0x2,
            Interrupt::RxFifo0MessageLost => 0x4,
            Interrupt::RxFifo1NewMsg => 0x8,
            Interrupt::RxFifo1Full => 0x10,
            Interrupt::RxFifo1MessageLost => 0x20,
            Interrupt::RxHighPrio => 0x40,
            Interrupt::TransmissionCompleted => 0x80,
            Interrupt::TransmissionCancelled => 0x100,
            Interrupt::TxFifoEmpty => 0x200,
            Interrupt::TxEventNew => 0x400,
            Interrupt::TxEventFull => 0x800,
            Interrupt::TxEventLost => 0x1000,
            Interrupt::TimestampWraparound => 0x2000,
            Interrupt::MessageRamAccessFailure => 0x4000,
            Interrupt::TimeoutOccurred => 0x8000,
            Interrupt::ErrorLoggingOverflow => 0x1_0000,
            Interrupt::ErrorPassive => 0x2_0000,
            Interrupt::WarningStatus => 0x4_0000,
            Interrupt::BusOff => 0x8_0000,
            Interrupt::WatchdogInterrupt => 0x10_0000,
            Interrupt::ProtErrArbitration => 0x20_0000,
            Interrupt::ProtErrData => 0x40_0000,
            Interrupt::AccessReservedAddress => 0x80_0000,
        }
    }
}

/// One of the two interrupt output lines of the peripheral.
#[derive(Clone, Copy, Debug, PartialEq, Eq, Structural)]
pub enum InterruptLine {
    /// Interrupt line 0.
    _0,
    /// Interrupt line 1.
    _1,
}

/// A set of interrupt sources, as a bitmap over [`Interrupt`] bits.
#[derive(Clone, Copy, Debug, PartialEq, Eq, Structural)]
pub struct Interrupts {
    /// The raw bitmap; only bits inside [`INTERRUPTS_ALL`] are meaningful.
    pub bits: u32,
}

impl Interrupts {
    /// The empty set of interrupt sources.
    pub fn none() -> (r: Interrupts)
        ensures
            r.bits == 0,
    {
        Interrupts { bits: 0 }
    }

    /// The set of every defined interrupt source.
    pub fn all() -> (r: Interrupts)
        ensures
            r.bits == INTERRUPTS_ALL,
    {
        Interrupts { bits: INTERRUPTS_ALL }
    }

    /// The set holding exactly the bits of `bits` that name a defined source.
    pub fn from_bits_truncate(bits: u32) -> (r: Interrupts)
        ensures
            r.bits == bits & INTERRUPTS_ALL,
    {
        Interrupts { bits: bits & INTERRUPTS_ALL }
    }

    /// The raw bitmap of the set.
    pub fn bits(self) -> (b: u32)
        ensures
            b == self.bits,
    {
        self.bits
    }
}

} // verus!
