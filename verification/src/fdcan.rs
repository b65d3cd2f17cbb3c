//! The peripheral handle: operating modes, configuration surface, filter
//! tables, and the composed transmit and receive roles.

use vstd::prelude::*;
use core::marker::PhantomData;
use crate::config::{spec_default_config, FdCanConfig};
use crate::filter::{Action, ExtendedFilter, FilterType, StandardFilter};
use crate::filter::{EXTENDED_FILTER_MAX, STANDARD_FILTER_MAX};
use crate::instance::{AuxBlock, CtrlBlock, ExtFilterWords, Instance};
use crate::interrupt::{Interrupt, InterruptLine, Interrupts, INTERRUPTS_ALL};
use crate::rx::{Fifo0, Fifo1, Rx};
use crate::tx::{Mailbox, Tx};

verus! {

/// An operation the hardware does not provide; returned instead of trapping.
#[derive(Clone, Copy, Debug, PartialEq, Eq, Structural)]
pub struct Unsupported;

/// Marker for modes in which frames can be transmitted.
pub trait Transmit {

}

/// Marker for modes in which frames can be received.
pub trait Receive {

}

/// The peripheral is powered down; it can be released or configured.
pub struct PoweredDownMode;

/// Bit timing, filters and interrupt routing may be changed.
pub struct ConfigMode;

/// The transmit output feeds the receive input internally; the pins are left
/// alone, so a running bus is not disturbed.
pub struct InternalLoopbackMode;

impl Transmit for InternalLoopbackMode {

}

impl Receive for InternalLoopbackMode {

}

/// The transmit output feeds the receive input and still drives the transmit
/// pin; acknowledge errors are ignored.
pub struct ExternalLoopbackMode;

impl Transmit for ExternalLoopbackMode {

}

impl Receive for ExternalLoopbackMode {

}

/// Ordinary operation on the bus.
pub struct NormalOperationMode;

impl Transmit for NormalOperationMode {

}

impl Receive for NormalOperationMode {

}

/// The node receives and acknowledges but never drives a dominant bit of its
/// own accord.
pub struct RestrictedOperationMode;

impl Receive for RestrictedOperationMode {

}

/// The node only listens: it sends recessive bits and reroutes any dominant
/// bit it would have to send back to its own monitor.
pub struct BusMonitoringMode;

impl Receive for BusMonitoringMode {

}

/// Production-test access to the transmit pin; not for applications.
pub struct TestMode;

/// Value of the receive error counter, wrapped with whether it passed the
/// error-passive limit of 128.
#[derive(Clone, Copy, Debug, PartialEq, Eq, Structural)]
pub enum ReceiveErrorOverflow {
    /// The counter is below the limit.
    Normal(u8),
    /// The counter reached the limit.
    Overflow(u8),
}

/// The peripheral's error counters.
#[derive(Clone, Copy, Debug, PartialEq, Eq, Structural)]
pub struct ErrorCounters {
    /// The error logging counter.
    pub can_errors: u8,
    /// The receive error counter, with its limit flag.
    pub receive_err: ReceiveErrorOverflow,
    /// The transmit error counter.
    pub transmit_err: u8,
}

/// The control block with a configuration snapshot written into its register
/// fields; nothing else of the block changes. The retransmission bit is a
/// disable bit, so it inverts its flag. The interrupt-line routing lives in
/// the auxiliary block and is stated beside this where it applies.
pub open spec fn spec_apply_config(c: CtrlBlock, cfg: FdCanConfig) -> CtrlBlock {
    CtrlBlock {
        nbrp: cfg.nbtr.spec_nbrp(),
        ntseg1: cfg.nbtr.spec_ntseg1(),
        ntseg2: cfg.nbtr.spec_ntseg2(),
        nsjw: cfg.nbtr.spec_nsjw(),
        dbrp: cfg.dbtr.spec_dbrp(),
        dtseg1: cfg.dbtr.spec_dtseg1(),
        dtseg2: cfg.dbtr.spec_dtseg2(),
        dsjw: cfg.dbtr.spec_dsjw(),
        dar: !cfg.automatic_retransmit,
        txp: cfg.transmit_pause,
        fdoe: !(cfg.frame_transmit is ClassicCanOnly),
        brse: cfg.frame_transmit is AllowFdCanAndBRS,
        niso: cfg.non_iso_mode,
        efbi: cfg.edge_filtering,
        pxhd: cfg.protocol_exception_handling,
        ..c
    }
}

/// Writing one configuration snapshot into a control block twice leaves
/// exactly what writing it once leaves: re-applying the snapshot at every
/// entry into an operating mode is idempotent.
pub proof fn lemma_apply_config_idempotent(c: CtrlBlock, cfg: FdCanConfig)
    ensures
        spec_apply_config(spec_apply_config(c, cfg), cfg) == spec_apply_config(c, cfg),
{
}

/// Houses the configuration snapshot and the control registers during a
/// split, and serves generic queries at any time.
pub struct FdCanControl<MODE> {
    /// The configuration snapshot, re-applied in full at every entry into an
    /// operating mode.
    pub config: FdCanConfig,
    /// Mode, protocol and bit-timing registers.
    pub ctrl: CtrlBlock,
    /// Clock, timestamp, interrupt, error and filter registers.
    pub aux: AuxBlock,
    /// Mode marker.
    pub _mode: PhantomData<MODE>,
}

impl<MODE> FdCanControl<MODE> {
    /// The current error counters.
    pub fn error_counters(&self) -> (r: ErrorCounters)
        ensures
            r.can_errors == self.aux.cel,
            r.transmit_err == self.aux.tec,
            r.receive_err == if self.aux.rp {
                ReceiveErrorOverflow::Overflow(self.aux.rec)
            } else {
                ReceiveErrorOverflow::Normal(self.aux.rec)
            },
    {
        let cel: u8 = self.aux.cel;
        let rp: bool = self.aux.rp;
        let rec: u8 = self.aux.rec;
        let tec: u8 = self.aux.tec;
        ErrorCounters {
            can_errors: cel,
            transmit_err: tec,
            receive_err: match rp {
                false => ReceiveErrorOverflow::Normal(rec),
                true => ReceiveErrorOverflow::Overflow(rec),
            },
        }
    }

    /// The current timestamp counter value.
    pub fn timestamp(&self) -> (t: u16)
        ensures
            t == self.aux.tscv,
    {
        self.aux.tscv
    }
}

/// Interface to an FdCAN peripheral: the composed control, transmit and
/// receive roles, tagged with the current operating mode.
pub struct FdCan<MODE> {
    /// The control role.
    pub control: FdCanControl<MODE>,
    /// The transmit role.
    pub tx: Tx<MODE>,
    /// The receive role of FIFO 0.
    pub rx0: Rx<MODE, Fifo0>,
    /// The receive role of FIFO 1.
    pub rx1: Rx<MODE, Fifo1>,
}

/// The mode-independent state of a handle, for stating contracts.
pub ghost struct FdCanSnapshot {
    /// The configuration snapshot.
    pub config: FdCanConfig,
    /// The control block.
    pub ctrl: CtrlBlock,
    /// The auxiliary block.
    pub aux: AuxBlock,
    /// The transmit block.
    pub tx: crate::instance::TxBlock,
    /// Receive FIFO 0's block.
    pub rx0: crate::instance::RxBlock,
    /// Receive FIFO 1's block.
    pub rx1: crate::instance::RxBlock,
}

/// The handle holds exactly this configuration snapshot and this
/// peripheral's register state.
pub open spec fn spec_holds(c: FdCanConfig, i: Instance) -> FdCanSnapshot {
    FdCanSnapshot { config: c, ctrl: i.ctrl, aux: i.aux, tx: i.tx, rx0: i.rx0, rx1: i.rx1 }
}

impl<MODE> FdCan<MODE> {
    /// The handle's mode-independent state.
    pub open spec fn snapshot(self) -> FdCanSnapshot {
        FdCanSnapshot {
            config: self.control.config,
            ctrl: self.control.ctrl,
            aux: self.control.aux,
            tx: self.tx.block,
            rx0: self.rx0.block,
            rx1: self.rx1.block,
        }
    }

    /// Assemble a handle from a configuration snapshot and the peripheral
    /// capability.
    fn create_can(config: FdCanConfig, instance: Instance) -> (r: FdCan<MODE>)
        ensures
            r.snapshot() == spec_holds(config, instance),
    {
        FdCan {
            control: FdCanControl {
                config,
                ctrl: instance.ctrl,
                aux: instance.aux,
                _mode: PhantomData,
            },
            tx: Tx::assemble(instance.tx),
            rx0: Rx::assemble(instance.rx0),
            rx1: Rx::assemble(instance.rx1),
        }
    }

    /// Re-tag the handle with another mode; the state is untouched.
    fn into_can_mode<NEW_MODE>(self) -> (r: FdCan<NEW_MODE>)
        ensures
            r.snapshot() == self.snapshot(),
    {
        FdCan {
            control: FdCanControl {
                config: self.control.config,
                ctrl: self.control.ctrl,
                aux: self.control.aux,
                _mode: PhantomData,
            },
            tx: Tx::assemble(self.tx.release()),
            rx0: Rx::assemble(self.rx0.release()),
            rx1: Rx::assemble(self.rx1.release()),
        }
    }

    /// Set the initialization request and, once the model silicon
    /// acknowledges it at the write, enable configuration changes. Real
    /// hardware completes this handshake in bounded time absent a fault.
    fn enter_init_mode(&mut self)
        ensures
            final(self).control.ctrl == (CtrlBlock {
                init: true,
                cce: true,
                ..old(self).control.ctrl
            }),
            final(self).control.aux == old(self).control.aux,
            final(self).control.config == old(self).control.config,
            final(self).tx.block == old(self).tx.block,
            final(self).rx0.block == old(self).rx0.block,
            final(self).rx1.block == old(self).rx1.block,
    {
        self.control.ctrl.init = true;
        self.control.ctrl.cce = true;
    }

    /// Route the transmit output back to the receive input, with or without
    /// disconnecting the pins.
    fn set_loopback_mode(&mut self, mode: LoopbackMode)
        ensures
            final(self).control.ctrl == (CtrlBlock {
                mon: !(mode is Disabled),
                lbck: mode is Internal,
                ..old(self).control.ctrl
            }),
            final(self).control.aux == old(self).control.aux,
            final(self).control.config == old(self).control.config,
            final(self).tx.block == old(self).tx.block,
            final(self).rx0.block == old(self).rx0.block,
            final(self).rx1.block == old(self).rx1.block,
    {
        let (mon, lbck) = match mode {
            LoopbackMode::Disabled => (false, false),
            LoopbackMode::Internal => (true, true),
            LoopbackMode::External => (true, false),
        };
        self.control.ctrl.mon = mon;
        self.control.ctrl.lbck = lbck;
    }

    /// Switch bus monitoring: the node then never drives a dominant bit.
    fn set_bus_monitoring_mode(&mut self, enabled: bool)
        ensures
            final(self).control.ctrl == (CtrlBlock { mon: enabled, ..old(self).control.ctrl }),
            final(self).control.aux == old(self).control.aux,
            final(self).control.config == old(self).control.config,
            final(self).tx.block == old(self).tx.block,
            final(self).rx0.block == old(self).rx0.block,
            final(self).rx1.block == old(self).rx1.block,
    {
        self.control.ctrl.mon = enabled;
    }

    /// Switch restricted operation: receive and acknowledge only.
    fn set_restricted_operations(&mut self, enabled: bool)
        ensures
            final(self).control.ctrl == (CtrlBlock {
                restricted: enabled,
                ..old(self).control.ctrl
            }),
            final(self).control.aux == old(self).control.aux,
            final(self).control.config == old(self).control.config,
            final(self).tx.block == old(self).tx.block,
            final(self).rx0.block == old(self).rx0.block,
            final(self).rx1.block == old(self).rx1.block,
    {
        self.control.ctrl.restricted = enabled;
    }

    /// Normal operation needs no dedicated control bit.
    fn set_normal_operations(&mut self, _enabled: bool)
        ensures
            *final(self) == *old(self),
    {
    }

    /// Switch access to the test facilities.
    fn set_test_mode(&mut self, enabled: bool)
        ensures
            final(self).control.ctrl == (CtrlBlock {
                test_enabled: enabled,
                ..old(self).control.ctrl
            }),
            final(self).control.aux == old(self).control.aux,
            final(self).control.config == old(self).control.config,
            final(self).tx.block == old(self).tx.block,
            final(self).rx0.block == old(self).rx0.block,
            final(self).rx1.block == old(self).rx1.block,
    {
        self.control.ctrl.test_enabled = enabled;
    }

    /// Request or leave the power-down state; the model silicon acknowledges
    /// at the write, where real hardware completes the handshake in bounded
    /// time.
    fn set_power_down_mode(&mut self, enabled: bool)
        ensures
            final(self).control.ctrl == (CtrlBlock {
                power_down: enabled,
                ..old(self).control.ctrl
            }),
            final(self).control.aux == old(self).control.aux,
            final(self).control.config == old(self).control.config,
            final(self).tx.block == old(self).tx.block,
            final(self).rx0.block == old(self).rx0.block,
            final(self).rx1.block == old(self).rx1.block,
    {
        self.control.ctrl.power_down = enabled;
    }

    /// Enable or disable one of the two interrupt output lines.
    pub fn enable_interrupt_line(&mut self, line: InterruptLine, enabled: bool)
        ensures
            final(self).control.aux == (AuxBlock {
                ile0: if line is _0 {
                    enabled
                } else {
                    old(self).control.aux.ile0
                },
                ile1: if line is _1 {
                    enabled
                } else {
                    old(self).control.aux.ile1
                },
                ..old(self).control.aux
            }),
            final(self).control.ctrl == old(self).control.ctrl,
            final(self).control.config == old(self).control.config,
            final(self).tx.block == old(self).tx.block,
            final(self).rx0.block == old(self).rx0.block,
            final(self).rx1.block == old(self).rx1.block,
    {
        match line {
            InterruptLine::_0 => {
                self.control.aux.ile0 = enabled;
            },
            InterruptLine::_1 => {
                self.control.aux.ile1 = enabled;
            },
        }
    }

    /// Start listening for one interrupt source.
    pub fn enable_interrupt(&mut self, interrupt: Interrupt)
        ensures
            final(self).control.aux == (AuxBlock {
                ie: old(self).control.aux.ie | (interrupt.spec_bit() & INTERRUPTS_ALL),
                ..old(self).control.aux
            }),
            final(self).control.ctrl == old(self).control.ctrl,
            final(self).control.config == old(self).control.config,
            final(self).tx.block == old(self).tx.block,
            final(self).rx0.block == old(self).rx0.block,
            final(self).rx1.block == old(self).rx1.block,
    {
        self.enable_interrupts(Interrupts::from_bits_truncate(interrupt.bit()))
    }

    /// Start listening for a set of interrupt sources.
    pub fn enable_interrupts(&mut self, interrupts: Interrupts)
        ensures
            final(self).control.aux == (AuxBlock {
                ie: old(self).control.aux.ie | interrupts.bits,
                ..old(self).control.aux
            }),
            final(self).control.ctrl == old(self).control.ctrl,
            final(self).control.config == old(self).control.config,
            final(self).tx.block == old(self).tx.block,
            final(self).rx0.block == old(self).rx0.block,
            final(self).rx1.block == old(self).rx1.block,
    {
        self.control.aux.ie = self.control.aux.ie | interrupts.bits;
    }

    /// Stop listening for one interrupt source.
    pub fn disable_interrupt(&mut self, interrupt: Interrupt)
        ensures
            final(self).control.aux == (AuxBlock {
                ie: old(self).control.aux.ie & !(interrupt.spec_bit() & INTERRUPTS_ALL),
                ..old(self).control.aux
            }),
            final(self).control.ctrl == old(self).control.ctrl,
            final(self).control.config == old(self).control.config,
            final(self).tx.block == old(self).tx.block,
            final(self).rx0.block == old(self).rx0.block,
            final(self).rx1.block == old(self).rx1.block,
    {
        self.disable_interrupts(Interrupts::from_bits_truncate(interrupt.bit()))
    }

    /// Stop listening for a set of interrupt sources.
    pub fn disable_interrupts(&mut self, interrupts: Interrupts)
        ensures
            final(self).control.aux == (AuxBlock {
                ie: old(self).control.aux.ie & !interrupts.bits,
                ..old(self).control.aux
            }),
            final(self).control.ctrl == old(self).control.ctrl,
            final(self).control.config == old(self).control.config,
            final(self).tx.block == old(self).tx.block,
            final(self).rx0.block == old(self).rx0.block,
            final(self).rx1.block == old(self).rx1.block,
    {
        self.control.aux.ie = self.control.aux.ie & !interrupts.bits;
    }

    /// The current error counters.
    pub fn error_counters(&self) -> (r: ErrorCounters)
        ensures
            r.can_errors == self.control.aux.cel,
            r.transmit_err == self.control.aux.tec,
            r.receive_err == if self.control.aux.rp {
                ReceiveErrorOverflow::Overflow(self.control.aux.rec)
            } else {
                ReceiveErrorOverflow::Normal(self.control.aux.rec)
            },
    {
        self.control.error_counters()
    }

    /// Overwrite one slot of the standard filter table.
    pub fn set_standard_filter(&mut self, slot: u8, filter: StandardFilter)
        requires
            slot < STANDARD_FILTER_MAX,
        ensures
            final(self).control.aux == (AuxBlock {
                flssa: final(self).control.aux.flssa,
                ..old(self).control.aux
            }),
            final(self).control.aux.flssa@ == old(self).control.aux.flssa@.update(
                slot as int,
                filter.spec_word(),
            ),
            final(self).control.ctrl == old(self).control.ctrl,
            final(self).control.config == old(self).control.config,
            final(self).tx.block == old(self).tx.block,
            final(self).rx0.block == old(self).rx0.block,
            final(self).rx1.block == old(self).rx1.block,
    {
        let w = filter.to_word();
        self.control.aux.flssa[slot as usize] = w;
    }

    /// Overwrite the whole standard filter table, slot by slot. The writes
    /// are sequential, not atomic across slots; bulk updates belong in
    /// configuration mode, while reception is inactive.
    pub fn set_standard_filters(&mut self, filters: &[StandardFilter; 28])
        ensures
            forall|i: int|
                0 <= i < 28 ==> final(self).control.aux.flssa[i] == (
                #[trigger] filters[i]).spec_word(),
            final(self).control.aux == (AuxBlock {
                flssa: final(self).control.aux.flssa,
                ..old(self).control.aux
            }),
            final(self).control.ctrl == old(self).control.ctrl,
            final(self).control.config == old(self).control.config,
            final(self).tx.block == old(self).tx.block,
            final(self).rx0.block == old(self).rx0.block,
            final(self).rx1.block == old(self).rx1.block,
    {
        let mut i: usize = 0;
        while i < 28
            invariant
                i <= 28,
            forall|q: int|
                0 <= q < i ==> self.control.aux.flssa[q] == (#[trigger] filters[q]).spec_word(),
            self.control.aux == (AuxBlock {
                flssa: self.control.aux.flssa,
                ..old(self).control.aux
            }),
            self.control.ctrl == old(self).control.ctrl,
            self.control.config == old(self).control.config,
            self.tx.block == old(self).tx.block,
            self.rx0.block == old(self).rx0.block,
            self.rx1.block == old(self).rx1.block,
            decreases 28 - i,
        {
            let w = filters[i].to_word();
            self.control.aux.flssa[i] = w;
            i += 1;
        }
    }

    /// Overwrite one slot of the extended filter table.
    pub fn set_extended_filter(&mut self, slot: u8, filter: ExtendedFilter)
        requires
            slot < EXTENDED_FILTER_MAX,
        ensures
            final(self).control.aux == (AuxBlock {
                flesa: final(self).control.aux.flesa,
                ..old(self).control.aux
            }),
            final(self).control.aux.flesa@ == old(self).control.aux.flesa@.update(
                slot as int,
                ExtFilterWords { w0: filter.spec_word0(), w1: filter.spec_word1() },
            ),
            final(self).control.ctrl == old(self).control.ctrl,
            final(self).control.config == old(self).control.config,
            final(self).tx.block == old(self).tx.block,
            final(self).rx0.block == old(self).rx0.block,
            final(self).rx1.block == old(self).rx1.block,
    {
        let (w0, w1) = filter.to_words();
        self.control.aux.flesa[slot as usize] = ExtFilterWords { w0, w1 };
    }

    /// Overwrite the whole extended filter table, slot by slot; sequential,
    /// not atomic, as with the standard table.
    pub fn set_extended_filters(&mut self, filters: &[ExtendedFilter; 8])
        ensures
            forall|i: int|
                0 <= i < 8 ==> final(self).control.aux.flesa[i] == (ExtFilterWords {
                    w0: (#[trigger] filters[i]).spec_word0(),
                    w1: filters[i].spec_word1(),
                }),
            final(self).control.aux == (AuxBlock {
                flesa: final(self).control.aux.flesa,
                ..old(self).control.aux
            }),
            final(self).control.ctrl == old(self).control.ctrl,
            final(self).control.config == old(self).control.config,
            final(self).tx.block == old(self).tx.block,
            final(self).rx0.block == old(self).rx0.block,
            final(self).rx1.block == old(self).rx1.block,
    {
        let mut i: usize = 0;
        while i < 8
            invariant
                i <= 8,
            forall|q: int|
                0 <= q < i ==> self.control.aux.flesa[q] == (ExtFilterWords {
                    w0: (#[trigger] filters[q]).spec_word0(),
                    w1: filters[q].spec_word1(),
                }),
            self.control.aux == (AuxBlock {
                flesa: self.control.aux.flesa,
                ..old(self).control.aux
            }),
            self.control.ctrl == old(self).control.ctrl,
            self.control.config == old(self).control.config,
            self.tx.block == old(self).tx.block,
            self.rx0.block == old(self).rx0.block,
            self.rx1.block == old(self).rx1.block,
            decreases 8 - i,
        {
            let (w0, w1) = filters[i].to_words();
            self.control.aux.flesa[i] = ExtFilterWords { w0, w1 };
            i += 1;
        }
    }

    /// This peripheral keeps no per-mailbox request-completed flag to clear;
    /// reported as unsupported instead of trapping.
    pub fn clear_request_completed_flag(&mut self) -> (r: Result<Option<Mailbox>, Unsupported>)
        ensures
            r is Err,
            *final(self) == *old(self),
    {
        Err(Unsupported)
    }

    /// Acknowledging a pending transmit interrupt rests on the
    /// request-completed flags, which this peripheral does not keep;
    /// reported as unsupported instead of trapping.
    pub fn clear_tx_interrupt(&mut self) -> (r: Result<(), Unsupported>)
        ensures
            r is Err,
            *final(self) == *old(self),
    {
        Err(Unsupported)
    }

    /// Reassemble a handle from the four role handles of a split.
    pub fn combine(
        t: (FdCanControl<MODE>, Tx<MODE>, Rx<MODE, Fifo0>, Rx<MODE, Fifo1>),
    ) -> (r: Self)
        ensures
            r.control.config == t.0.config,
            r.control.ctrl == t.0.ctrl,
            r.control.aux == t.0.aux,
            r.tx.block == t.1.block,
            r.rx0.block == t.2.block,
            r.rx1.block == t.3.block,
    {
        let (control, tx, rx0, rx1) = t;
        FdCan { control, tx, rx0, rx1 }
    }
}

/// Internal selector for the loopback wiring.
#[derive(Clone, Copy, Debug)]
enum LoopbackMode {
    /// No loopback.
    Disabled,
    /// Loop back internally, pins disconnected.
    Internal,
    /// Loop back while still driving the transmit pin.
    External,
}

impl FdCan<PoweredDownMode> {
    /// Take ownership of the raw peripheral capability. The caller must
    /// have checked the identity and endianness marker: wrong silicon or bad
    /// wiring is fatal at startup, not something to tolerate at run time.
    pub fn new(instance: Instance) -> (r: Self)
        requires
            instance.ctrl.endn == 0x8765_4321,
        ensures
            r.snapshot() == spec_holds(spec_default_config(), instance),
    {
        Self::create_can(FdCanConfig::default(), instance)
    }

    /// Wake the peripheral and enter the configuration state: the
    /// initialization handshake completes, the transmit buffers are put in
    /// queue mode, the filter list sizes are pinned to the full allocated
    /// capacity, and every filter slot is disabled.
    pub fn into_config_mode(self) -> (r: FdCan<ConfigMode>)
        ensures
            r.control.ctrl == (CtrlBlock {
                power_down: false,
                init: true,
                cce: true,
                tfqm: true,
                ..self.control.ctrl
            }),
            r.control.aux == (AuxBlock {
                lss: STANDARD_FILTER_MAX,
                lse: EXTENDED_FILTER_MAX,
                flssa: r.control.aux.flssa,
                flesa: r.control.aux.flesa,
                ..self.control.aux
            }),
            forall|i: int|
                0 <= i < 28 ==> #[trigger] r.control.aux.flssa[i] == (StandardFilter {
                    filter: FilterType::Disabled,
                    action: Action::Disable,
                }).spec_word(),
            forall|i: int|
                0 <= i < 8 ==> #[trigger] r.control.aux.flesa[i] == (ExtFilterWords {
                    w0: (ExtendedFilter {
                        filter: FilterType::Disabled,
                        action: Action::Disable,
                    }).spec_word0(),
                    w1: (ExtendedFilter {
                        filter: FilterType::Disabled,
                        action: Action::Disable,
                    }).spec_word1(),
                }),
            r.control.config == self.control.config,
            r.tx.block == self.tx.block,
            r.rx0.block == self.rx0.block,
            r.rx1.block == self.rx1.block,
    {
        let mut can = self;
        can.set_power_down_mode(false);
        can.enter_init_mode();
        can.control.ctrl.tfqm = true;
        can.control.aux.lss = STANDARD_FILTER_MAX;
        can.control.aux.lse = EXTENDED_FILTER_MAX;
        let sw = StandardFilter::disable().to_word();
        let (ew0, ew1) = ExtendedFilter::disable().to_words();
        can.control.aux.flssa = [
            sw,
            sw,
            sw,
            sw,
            sw,
            sw,
            sw,
            sw,
            sw,
            sw,
            sw,
            sw,
            sw,
            sw,
            sw,
            sw,
            sw,
            sw,
            sw,
            sw,
            sw,
            sw,
            sw,
            sw,
            sw,
            sw,
            sw,
            sw,
        ];
        let ew = ExtFilterWords { w0: ew0, w1: ew1 };
        can.control.aux.flesa = [ew, ew, ew, ew, ew, ew, ew, ew];
        can.into_can_mode()
    }

    /// Disable the interrupt lines, park the peripheral in its
    /// initialization state, power it down, and hand the raw capability
    /// back.
    pub fn free(self) -> (r: Instance)
        ensures
            r.ctrl == (CtrlBlock {
                init: true,
                cce: true,
                power_down: true,
                ..self.control.ctrl
            }),
            r.aux == (AuxBlock { ie: self.control.aux.ie & !INTERRUPTS_ALL, ..self.control.aux }),
            r.tx == self.tx.block,
            r.rx0 == self.rx0.block,
            r.rx1 == self.rx1.block,
    {
        let mut can = self;
        can.disable_interrupts(Interrupts::all());
        can.enter_init_mode();
        can.set_power_down_mode(true);
        Instance {
            ctrl: can.control.ctrl,
            aux: can.control.aux,
            tx: can.tx.release(),
            rx0: can.rx0.release(),
            rx1: can.rx1.release(),
        }
    }
}

impl FdCan<ConfigMode> {
    /// Leave the initialization state: re-apply the whole stored
    /// configuration snapshot, disable configuration changes and clear the
    /// initialization request. The model silicon confirms at the write;
    /// real hardware completes the handshake in bounded time.
    fn leave_init_mode(&mut self)
        ensures
            final(self).control.ctrl == (CtrlBlock {
                cce: false,
                init: false,
                ..spec_apply_config(old(self).control.ctrl, old(self).control.config)
            }),
            final(self).control.aux == (AuxBlock {
                ils: old(self).control.config.interrupt_line_config.bits,
                ..old(self).control.aux
            }),
            final(self).control.config == old(self).control.config,
            final(self).tx.block == old(self).tx.block,
            final(self).rx0.block == old(self).rx0.block,
            final(self).rx1.block == old(self).rx1.block,
    {
        let config = self.control.config;
        self.apply_config(config);
        self.control.ctrl.cce = false;
        self.control.ctrl.init = false;
    }

    /// Enter internal loopback and the operating state.
    pub fn into_internal_loopback(self) -> (r: FdCan<InternalLoopbackMode>)
        ensures
            r.control.ctrl == (CtrlBlock {
                mon: true,
                lbck: true,
                cce: false,
                init: false,
                ..spec_apply_config(self.control.ctrl, self.control.config)
            }),
            r.control.aux == (AuxBlock {
                ils: self.control.config.interrupt_line_config.bits,
                ..self.control.aux
            }),
            r.control.config == self.control.config,
            r.tx.block == self.tx.block,
            r.rx0.block == self.rx0.block,
            r.rx1.block == self.rx1.block,
    {
        let mut can = self;
        can.set_loopback_mode(LoopbackMode::Internal);
        can.leave_init_mode();
        can.into_can_mode()
    }

    /// Enter external loopback and the operating state.
    pub fn into_external_loopback(self) -> (r: FdCan<ExternalLoopbackMode>)
        ensures
            r.control.ctrl == (CtrlBlock {
                mon: true,
                lbck: false,
                cce: false,
                init: false,
                ..spec_apply_config(self.control.ctrl, self.control.config)
            }),
            r.control.aux == (AuxBlock {
                ils: self.control.config.interrupt_line_config.bits,
                ..self.control.aux
            }),
            r.control.config == self.control.config,
            r.tx.block == self.tx.block,
            r.rx0.block == self.rx0.block,
            r.rx1.block == self.rx1.block,
    {
        let mut can = self;
        can.set_loopback_mode(LoopbackMode::External);
        can.leave_init_mode();
        can.into_can_mode()
    }

    /// Enter restricted operation and the operating state.
    pub fn into_restricted(self) -> (r: FdCan<RestrictedOperationMode>)
        ensures
            r.control.ctrl == (CtrlBlock {
                restricted: true,
                cce: false,
                init: false,
                ..spec_apply_config(self.control.ctrl, self.control.config)
            }),
            r.control.aux == (AuxBlock {
                ils: self.control.config.interrupt_line_config.bits,
                ..self.control.aux
            }),
            r.control.config == self.control.config,
            r.tx.block == self.tx.block,
            r.rx0.block == self.rx0.block,
            r.rx1.block == self.rx1.block,
    {
        let mut can = self;
        can.set_restricted_operations(true);
        can.leave_init_mode();
        can.into_can_mode()
    }

    /// Enter normal operation.
    pub fn into_normal(self) -> (r: FdCan<NormalOperationMode>)
        ensures
            r.control.ctrl == (CtrlBlock {
                cce: false,
                init: false,
                ..spec_apply_config(self.control.ctrl, self.control.config)
            }),
            r.control.aux == (AuxBlock {
                ils: self.control.config.interrupt_line_config.bits,
                ..self.control.aux
            }),
            r.control.config == self.control.config,
            r.tx.block == self.tx.block,
            r.rx0.block == self.rx0.block,
            r.rx1.block == self.rx1.block,
    {
        let mut can = self;
        can.set_normal_operations(true);
        can.leave_init_mode();
        can.into_can_mode()
    }

    /// Enter bus monitoring and the operating state.
    pub fn into_bus_monitoring(self) -> (r: FdCan<BusMonitoringMode>)
        ensures
            r.control.ctrl == (CtrlBlock {
                mon: true,
                cce: false,
                init: false,
                ..spec_apply_config(self.control.ctrl, self.control.config)
            }),
            r.control.aux == (AuxBlock {
                ils: self.control.config.interrupt_line_config.bits,
                ..self.control.aux
            }),
            r.control.config == self.control.config,
            r.tx.block == self.tx.block,
            r.rx0.block == self.rx0.block,
            r.rx1.block == self.rx1.block,
    {
        let mut can = self;
        can.set_bus_monitoring_mode(true);
        can.leave_init_mode();
        can.into_can_mode()
    }

    /// Enter the test state; for production tests only.
    pub fn into_test_mode(self) -> (r: FdCan<TestMode>)
        ensures
            r.control.ctrl == (CtrlBlock {
                test_enabled: true,
                cce: false,
                init: false,
                ..spec_apply_config(self.control.ctrl, self.control.config)
            }),
            r.control.aux == (AuxBlock {
                ils: self.control.config.interrupt_line_config.bits,
                ..self.control.aux
            }),
            r.control.config == self.control.config,
            r.tx.block == self.tx.block,
            r.rx0.block == self.rx0.block,
            r.rx1.block == self.rx1.block,
    {
        let mut can = self;
        can.set_test_mode(true);
        can.leave_init_mode();
        can.into_can_mode()
    }

    /// Power the peripheral down.
    pub fn into_powered_down(self) -> (r: FdCan<PoweredDownMode>)
        ensures
            r.control.ctrl == (CtrlBlock {
                power_down: true,
                cce: false,
                init: false,
                ..spec_apply_config(self.control.ctrl, self.control.config)
            }),
            r.control.aux == (AuxBlock {
                ils: self.control.config.interrupt_line_config.bits,
                ..self.control.aux
            }),
            r.control.config == self.control.config,
            r.tx.block == self.tx.block,
            r.rx0.block == self.rx0.block,
            r.rx1.block == self.rx1.block,
    {
        let mut can = self;
        can.set_power_down_mode(true);
        can.leave_init_mode();
        can.into_can_mode()
    }

    /// Write a whole configuration snapshot into the registers, as also
    /// happens on every entry into an operating mode. The clock divider and
    /// timestamp source keep their stored settings; they have setters of
    /// their own.
    pub fn apply_config(&mut self, config: FdCanConfig)
        ensures
            final(self).control.ctrl == spec_apply_config(old(self).control.ctrl, config),
            final(self).control.aux == (AuxBlock {
                ils: config.interrupt_line_config.bits,
                ..old(self).control.aux
            }),
            final(self).control.config == (FdCanConfig {
                clock_divider: old(self).control.config.clock_divider,
                timestamp_source: old(self).control.config.timestamp_source,
                ..config
            }),
            final(self).tx.block == old(self).tx.block,
            final(self).rx0.block == old(self).rx0.block,
            final(self).rx1.block == old(self).rx1.block,
    {
        self.set_data_bit_timing(config.dbtr);
        self.set_nominal_bit_timing(config.nbtr);
        self.set_automatic_retransmit(config.automatic_retransmit);
        self.set_transmit_pause(config.transmit_pause);
        self.set_frame_transmit(config.frame_transmit);
        self.set_interrupt_line_config(config.interrupt_line_config);
        self.set_non_iso_mode(config.non_iso_mode);
        self.set_edge_filtering(config.edge_filtering);
        self.set_protocol_exception_handling(config.protocol_exception_handling);
    }

    /// Configure the nominal bit timing; each field is masked to its
    /// register width.
    pub fn set_nominal_bit_timing(&mut self, btr: crate::config::NominalBitTiming)
        ensures
            final(self).control.ctrl == (CtrlBlock {
                nbrp: btr.spec_nbrp(),
                ntseg1: btr.spec_ntseg1(),
                ntseg2: btr.spec_ntseg2(),
                nsjw: btr.spec_nsjw(),
                ..old(self).control.ctrl
            }),
            final(self).control.aux == old(self).control.aux,
            final(self).control.config == (FdCanConfig { nbtr: btr, ..old(self).control.config }),
            final(self).tx.block == old(self).tx.block,
            final(self).rx0.block == old(self).rx0.block,
            final(self).rx1.block == old(self).rx1.block,
    {
        self.control.config.nbtr = btr;
        self.control.ctrl.nbrp = btr.nbrp();
        self.control.ctrl.ntseg1 = btr.ntseg1();
        self.control.ctrl.ntseg2 = btr.ntseg2();
        self.control.ctrl.nsjw = btr.nsjw();
    }

    /// Configure the data-phase bit timing; each field is masked to its
    /// register width.
    pub fn set_data_bit_timing(&mut self, btr: crate::config::DataBitTiming)
        ensures
            final(self).control.ctrl == (CtrlBlock {
                dbrp: btr.spec_dbrp(),
                dtseg1: btr.spec_dtseg1(),
                dtseg2: btr.spec_dtseg2(),
                dsjw: btr.spec_dsjw(),
                ..old(self).control.ctrl
            }),
            final(self).control.aux == old(self).control.aux,
            final(self).control.config == (FdCanConfig { dbtr: btr, ..old(self).control.config }),
            final(self).tx.block == old(self).tx.block,
            final(self).rx0.block == old(self).rx0.block,
            final(self).rx1.block == old(self).rx1.block,
    {
        self.control.config.dbtr = btr;
        self.control.ctrl.dbrp = btr.dbrp();
        self.control.ctrl.dtseg1 = btr.dtseg1();
        self.control.ctrl.dtseg2 = btr.dtseg2();
        self.control.ctrl.dsjw = btr.dsjw();
    }

    /// Switch automatic retransmission; the register bit is a disable bit,
    /// so it holds the inverted flag.
    #[verifier::rlimit(50)]
    pub fn set_automatic_retransmit(&mut self, enabled: bool)
        ensures
            final(self).control.ctrl == (CtrlBlock { dar: !enabled, ..old(self).control.ctrl }),
            final(self).control.aux == old(self).control.aux,
            final(self).control.config == (FdCanConfig {
                automatic_retransmit: enabled,
                ..old(self).control.config
            }),
            final(self).tx.block == old(self).tx.block,
            final(self).rx0.block == old(self).rx0.block,
            final(self).rx1.block == old(self).rx1.block,
    {
        self.control.ctrl.dar = !enabled;
        self.control.config.automatic_retransmit = enabled;
    }

    /// Switch the pause between own transmissions.
    pub fn set_transmit_pause(&mut self, enabled: bool)
        ensures
            final(self).control.ctrl == (CtrlBlock { txp: enabled, ..old(self).control.ctrl }),
            final(self).control.aux == old(self).control.aux,
            final(self).control.config == (FdCanConfig {
                transmit_pause: enabled,
                ..old(self).control.config
            }),
            final(self).tx.block == old(self).tx.block,
            final(self).rx0.block == old(self).rx0.block,
            final(self).rx1.block == old(self).rx1.block,
    {
        self.control.ctrl.txp = enabled;
        self.control.config.transmit_pause = enabled;
    }

    /// Switch the pre-standard frame format.
    pub fn set_non_iso_mode(&mut self, enabled: bool)
        ensures
            final(self).control.ctrl == (CtrlBlock { niso: enabled, ..old(self).control.ctrl }),
            final(self).control.aux == old(self).control.aux,
            final(self).control.config == (FdCanConfig {
                non_iso_mode: enabled,
                ..old(self).control.config
            }),
            final(self).tx.block == old(self).tx.block,
            final(self).rx0.block == old(self).rx0.block,
            final(self).rx1.block == old(self).rx1.block,
    {
        self.control.ctrl.niso = enabled;
        self.control.config.non_iso_mode = enabled;
    }

    /// Switch edge filtering during bus integration.
    pub fn set_edge_filtering(&mut self, enabled: bool)
        ensures
            final(self).control.ctrl == (CtrlBlock { efbi: enabled, ..old(self).control.ctrl }),
            final(self).control.aux == old(self).control.aux,
            final(self).control.config == (FdCanConfig {
                edge_filtering: enabled,
                ..old(self).control.config
            }),
            final(self).tx.block == old(self).tx.block,
            final(self).rx0.block == old(self).rx0.block,
            final(self).rx1.block == old(self).rx1.block,
    {
        self.control.ctrl.efbi = enabled;
        self.control.config.edge_filtering = enabled;
    }

    /// Configure which frame kinds may be transmitted.
    pub fn set_frame_transmit(&mut self, fts: crate::config::FrameTransmissionConfig)
        ensures
            final(self).control.ctrl == (CtrlBlock {
                fdoe: !(fts is ClassicCanOnly),
                brse: fts is AllowFdCanAndBRS,
                ..old(self).control.ctrl
            }),
            final(self).control.aux == old(self).control.aux,
            final(self).control.config == (FdCanConfig {
                frame_transmit: fts,
                ..old(self).control.config
            }),
            final(self).tx.block == old(self).tx.block,
            final(self).rx0.block == old(self).rx0.block,
            final(self).rx1.block == old(self).rx1.block,
    {
        let (fdoe, brse) = match fts {
            crate::config::FrameTransmissionConfig::ClassicCanOnly => (false, false),
            crate::config::FrameTransmissionConfig::AllowFdCan => (true, false),
            crate::config::FrameTransmissionConfig::AllowFdCanAndBRS => (true, true),
        };
        self.control.ctrl.fdoe = fdoe;
        self.control.ctrl.brse = brse;
        self.control.config.frame_transmit = fts;
    }

    /// Route each interrupt source to one of the two lines: a one bit
    /// routes the source to line 1.
    pub fn set_interrupt_line_config(&mut self, l0int: Interrupts)
        ensures
            final(self).control.aux == (AuxBlock { ils: l0int.bits, ..old(self).control.aux }),
            final(self).control.ctrl == old(self).control.ctrl,
            final(self).control.config == (FdCanConfig {
                interrupt_line_config: l0int,
                ..old(self).control.config
            }),
            final(self).tx.block == old(self).tx.block,
            final(self).rx0.block == old(self).rx0.block,
            final(self).rx1.block == old(self).rx1.block,
    {
        self.control.aux.ils = l0int.bits;
        self.control.config.interrupt_line_config = l0int;
    }

    /// Switch protocol exception handling.
    pub fn set_protocol_exception_handling(&mut self, enabled: bool)
        ensures
            final(self).control.ctrl == (CtrlBlock { pxhd: enabled, ..old(self).control.ctrl }),
            final(self).control.aux == old(self).control.aux,
            final(self).control.config == (FdCanConfig {
                protocol_exception_handling: enabled,
                ..old(self).control.config
            }),
            final(self).tx.block == old(self).tx.block,
            final(self).rx0.block == old(self).rx0.block,
            final(self).rx1.block == old(self).rx1.block,
    {
        self.control.ctrl.pxhd = enabled;
        self.control.config.protocol_exception_handling = enabled;
    }

    /// Configure the divider of the peripheral's input clock.
    pub fn set_clock_divider(&mut self, div: crate::config::ClockDivider)
        ensures
            final(self).control.aux == (AuxBlock {
                pdiv: div.spec_value(),
                ..old(self).control.aux
            }),
            final(self).control.ctrl == old(self).control.ctrl,
            final(self).control.config == (FdCanConfig {
                clock_divider: div,
                ..old(self).control.config
            }),
            final(self).tx.block == old(self).tx.block,
            final(self).rx0.block == old(self).rx0.block,
            final(self).rx1.block == old(self).rx1.block,
    {
        self.control.aux.pdiv = div.value();
        self.control.config.clock_divider = div;
    }

    /// Configure the source of the timestamp counter.
    pub fn set_timestamp_counter_source(&mut self, select: crate::config::TimestampSource)
        ensures
            final(self).control.aux == (AuxBlock {
                tcp: match select {
                    crate::config::TimestampSource::Prescaler(p) => p.spec_value(),
                    _ => 0,
                },
                tss: match select {
                    crate::config::TimestampSource::Disabled => 0,
                    crate::config::TimestampSource::Prescaler(_) => 1,
                    crate::config::TimestampSource::FromTIM3 => 2,
                },
                ..old(self).control.aux
            }),
            final(self).control.ctrl == old(self).control.ctrl,
            final(self).control.config == (FdCanConfig {
                timestamp_source: select,
                ..old(self).control.config
            }),
            final(self).tx.block == old(self).tx.block,
            final(self).rx0.block == old(self).rx0.block,
            final(self).rx1.block == old(self).rx1.block,
    {
        let (tcp, tss): (u8, u8) = match select {
            crate::config::TimestampSource::Disabled => (0, 0),
            crate::config::TimestampSource::Prescaler(p) => (p.value(), 1),
            crate::config::TimestampSource::FromTIM3 => (0, 2),
        };
        self.control.aux.tcp = tcp;
        self.control.aux.tss = tss;
        self.control.config.timestamp_source = select;
    }

    /// The current timestamp counter value.
    pub fn timestamp(&self) -> (t: u16)
        ensures
            t == self.control.aux.tscv,
    {
        self.control.timestamp()
    }
}

impl FdCan<InternalLoopbackMode> {
    /// Return to the configuration state; the loopback wiring is undone.
    pub fn into_config_mode(self) -> (r: FdCan<ConfigMode>)
        ensures
            r.control.ctrl == (CtrlBlock {
                mon: false,
                lbck: false,
                init: true,
                cce: true,
                ..self.control.ctrl
            }),
            r.control.aux == self.control.aux,
            r.control.config == self.control.config,
            r.tx.block == self.tx.block,
            r.rx0.block == self.rx0.block,
            r.rx1.block == self.rx1.block,
    {
        let mut can = self;
        can.set_loopback_mode(LoopbackMode::Disabled);
        can.enter_init_mode();
        can.into_can_mode()
    }
}

impl FdCan<ExternalLoopbackMode> {
    /// Return to the configuration state; the loopback wiring is undone.
    pub fn into_config_mode(self) -> (r: FdCan<ConfigMode>)
        ensures
            r.control.ctrl == (CtrlBlock {
                mon: false,
                lbck: false,
                init: true,
                cce: true,
                ..self.control.ctrl
            }),
            r.control.aux == self.control.aux,
            r.control.config == self.control.config,
            r.tx.block == self.tx.block,
            r.rx0.block == self.rx0.block,
            r.rx1.block == self.rx1.block,
    {
        let mut can = self;
        can.set_loopback_mode(LoopbackMode::Disabled);
        can.enter_init_mode();
        can.into_can_mode()
    }
}

impl FdCan<NormalOperationMode> {
    /// Return to the configuration state.
    pub fn into_config_mode(self) -> (r: FdCan<ConfigMode>)
        ensures
            r.control.ctrl == (CtrlBlock { init: true, cce: true, ..self.control.ctrl }),
            r.control.aux == self.control.aux,
            r.control.config == self.control.config,
            r.tx.block == self.tx.block,
            r.rx0.block == self.rx0.block,
            r.rx1.block == self.rx1.block,
    {
        let mut can = self;
        can.set_normal_operations(false);
        can.enter_init_mode();
        can.into_can_mode()
    }
}

impl FdCan<RestrictedOperationMode> {
    /// Return to the configuration state; restricted operation ends.
    pub fn into_config_mode(self) -> (r: FdCan<ConfigMode>)
        ensures
            r.control.ctrl == (CtrlBlock {
                restricted: false,
                init: true,
                cce: true,
                ..self.control.ctrl
            }),
            r.control.aux == self.control.aux,
            r.control.config == self.control.config,
            r.tx.block == self.tx.block,
            r.rx0.block == self.rx0.block,
            r.rx1.block == self.rx1.block,
    {
        let mut can = self;
        can.set_restricted_operations(false);
        can.enter_init_mode();
        can.into_can_mode()
    }
}

impl FdCan<BusMonitoringMode> {
    /// Return to the configuration state; bus monitoring ends.
    pub fn into_config_mode(self) -> (r: FdCan<ConfigMode>)
        ensures
            r.control.ctrl == (CtrlBlock {
                mon: false,
                init: true,
                cce: true,
                ..self.control.ctrl
            }),
            r.control.aux == self.control.aux,
            r.control.config == self.control.config,
            r.tx.block == self.tx.block,
            r.rx0.block == self.rx0.block,
            r.rx1.block == self.rx1.block,
    {
        let mut can = self;
        can.set_bus_monitoring_mode(false);
        can.enter_init_mode();
        can.into_can_mode()
    }
}

impl FdCan<TestMode> {
    /// Return to the configuration state; test access ends.
    pub fn into_config_mode(self) -> (r: FdCan<ConfigMode>)
        ensures
            r.control.ctrl == (CtrlBlock {
                test_enabled: false,
                init: true,
                cce: true,
                ..self.control.ctrl
            }),
            r.control.aux == self.control.aux,
            r.control.config == self.control.config,
            r.tx.block == self.tx.block,
            r.rx0.block == self.rx0.block,
            r.rx1.block == self.rx1.block,
    {
        let mut can = self;
        can.set_test_mode(false);
        can.enter_init_mode();
        can.into_can_mode()
    }
}

impl<M> FdCan<M> where M: Transmit + Receive {
    /// Split the handle into its four role handles, each restricted to its
    /// own registers and message-RAM region. Ownership moves, so at most
    /// one live handle exists per role.
    pub fn split(self) -> (r: (FdCanControl<M>, Tx<M>, Rx<M, Fifo0>, Rx<M, Fifo1>))
        ensures
            r.0.config == self.control.config,
            r.0.ctrl == self.control.ctrl,
            r.0.aux == self.control.aux,
            r.1.block == self.tx.block,
            r.2.block == self.rx0.block,
            r.3.block == self.rx1.block,
    {
        (self.control, self.tx, self.rx0, self.rx1)
    }

    /// Borrow the four role handles at once; the borrows are tied to the
    /// handle and end together.
    pub fn split_by_ref(&mut self) -> (r: (
        &mut FdCanControl<M>,
        &mut Tx<M>,
        &mut Rx<M, Fifo0>,
        &mut Rx<M, Fifo1>,
    ))
        ensures
            *r.0 == old(self).control,
            *r.1 == old(self).tx,
            *r.2 == old(self).rx0,
            *r.3 == old(self).rx1,
            *final(self) == (FdCan {
                control: *final(r.0),
                tx: *final(r.1),
                rx0: *final(r.2),
                rx1: *final(r.3),
            }),
    {
        (&mut self.control, &mut self.tx, &mut self.rx0, &mut self.rx1)
    }
}

impl<M> FdCan<M> where M: Transmit {
    /// Put a frame in a transmit mailbox; see [`Tx::transmit`] for the
    /// arbitration rule.
    pub fn transmit(&mut self, frame: crate::frame::TxFrameHeader, payload: &[u32]) -> (r:
        nb::Result<Option<()>, core::convert::Infallible>)
        requires
            frame.wf(),
            payload@.len() == crate::tx::spec_data_words(frame.len),
        ensures
            r is Err <==> crate::tx::spec_would_block(old(self).tx.block, frame.id.spec_key()),
            r is Err ==> final(self).tx.block == old(self).tx.block && r->Err_0 == nb::Error::<
                core::convert::Infallible,
            >::WouldBlock,
            r is Ok ==> crate::tx::spec_transmit_accepted(
                old(self).tx.block,
                final(self).tx.block,
                frame,
                payload@,
                r->Ok_0,
            ),
            final(self).control.config == old(self).control.config,
            final(self).control.ctrl == old(self).control.ctrl,
            final(self).control.aux == old(self).control.aux,
            final(self).rx0.block == old(self).rx0.block,
            final(self).rx1.block == old(self).rx1.block,
    {
        self.tx.transmit(frame, payload)
    }

    /// `true` if no mailbox holds a pending request.
    pub fn is_transmitter_idle(&self) -> (r: bool)
        ensures
            r == (!self.tx.block.pending[0] && !self.tx.block.pending[1]
                && !self.tx.block.pending[2]),
    {
        self.tx.is_idle()
    }

    /// Attempt to abort a pending frame; see [`Tx::abort`]. Returns whether
    /// the frame was stopped before transmission; on a mailbox with no
    /// pending frame nothing happens and `false` comes back.
    pub fn abort(&mut self, mailbox: Mailbox) -> (stopped: bool)
        ensures
            crate::tx::spec_abort_effect(
                old(self).tx.block,
                final(self).tx.block,
                mailbox.spec_index(),
                stopped,
            ),
            final(self).control.config == old(self).control.config,
            final(self).control.ctrl == old(self).control.ctrl,
            final(self).control.aux == old(self).control.aux,
            final(self).rx0.block == old(self).rx0.block,
            final(self).rx1.block == old(self).rx1.block,
    {
        self.tx.abort(mailbox)
    }
}

impl<M> FdCan<M> where M: Receive {
    /// Take the oldest pending element out of receive FIFO 0, if there is
    /// one; see [`Rx::receive`].
    pub fn receive0<R, F: FnOnce(crate::frame::RxFrameInfo, Vec<u8>) -> R>(
        &mut self,
        receive: F,
    ) -> (r: nb::Result<crate::rx::ReceiveOverrun<R>, core::convert::Infallible>)
        requires
            old(self).rx0.block.wf(),
            old(self).rx0.block.fill > 0 ==> crate::rx::spec_handler_fits(
                old(self).rx0.block,
                receive,
            ),
        ensures
            old(self).rx0.block.fill == 0 ==> r is Err && r->Err_0 == nb::Error::<
                core::convert::Infallible,
            >::WouldBlock && final(self).rx0.block == old(self).rx0.block,
            old(self).rx0.block.fill > 0 ==> crate::rx::spec_receive_ok(
                old(self).rx0.block,
                final(self).rx0.block,
                receive,
                r,
            ),
            final(self).control.config == old(self).control.config,
            final(self).control.ctrl == old(self).control.ctrl,
            final(self).control.aux == old(self).control.aux,
            final(self).tx.block == old(self).tx.block,
            final(self).rx1.block == old(self).rx1.block,
    {
        self.rx0.receive(receive)
    }

    /// Take the oldest pending element out of receive FIFO 1, if there is
    /// one; see [`Rx::receive`].
    pub fn receive1<R, F: FnOnce(crate::frame::RxFrameInfo, Vec<u8>) -> R>(
        &mut self,
        receive: F,
    ) -> (r: nb::Result<crate::rx::ReceiveOverrun<R>, core::convert::Infallible>)
        requires
            old(self).rx1.block.wf(),
            old(self).rx1.block.fill > 0 ==> crate::rx::spec_handler_fits(
                old(self).rx1.block,
                receive,
            ),
        ensures
            old(self).rx1.block.fill == 0 ==> r is Err && r->Err_0 == nb::Error::<
                core::convert::Infallible,
            >::WouldBlock && final(self).rx1.block == old(self).rx1.block,
            old(self).rx1.block.fill > 0 ==> crate::rx::spec_receive_ok(
                old(self).rx1.block,
                final(self).rx1.block,
                receive,
                r,
            ),
            final(self).control.config == old(self).control.config,
            final(self).control.ctrl == old(self).control.ctrl,
            final(self).control.aux == old(self).control.aux,
            final(self).tx.block == old(self).tx.block,
            final(self).rx0.block == old(self).rx0.block,
    {
        self.rx1.receive(receive)
    }
}

} // verus!
