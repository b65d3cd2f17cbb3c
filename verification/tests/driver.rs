//! Tests driving the simulated peripheral through the public API.

use fdcan_core::config::{
    ClockDivider, DataBitTiming, FdCanConfig, FrameTransmissionConfig, NominalBitTiming,
    TimestampPrescaler, TimestampSource,
};
use fdcan_core::fdcan::{ErrorCounters, FdCan, ReceiveErrorOverflow, Unsupported};
use fdcan_core::filter::{Action, ExtendedFilter, FilterType, StandardFilter};
use fdcan_core::frame::{
    rx_info_of_words, rx_info_to_words, tx_header_of_words, tx_header_to_words, FrameFormat,
    RxFrameInfo, TxFrameHeader,
};
use fdcan_core::id::{id_of_key, Id};
use fdcan_core::instance::Instance;
use fdcan_core::interrupt::{Interrupt, InterruptLine, Interrupts, INTERRUPTS_ALL};
use fdcan_core::rx::ReceiveOverrun;
use fdcan_core::tx::Mailbox;

fn tx_header(id: Id, len: u8) -> TxFrameHeader {
    TxFrameHeader {
        len,
        id,
        frame_format: FrameFormat::Standard,
        bit_rate_switching: false,
        marker: None,
    }
}

fn rx_info(id: Id, len: u8, timestamp: u16, fidx: u8) -> RxFrameInfo {
    RxFrameInfo {
        len,
        id,
        frame_format: FrameFormat::Standard,
        bit_rate_switching: false,
        timestamp,
        filter_match_index: fidx,
    }
}

fn words_for(len: u8) -> Vec<u32> {
    vec![0u32; ((len as usize) + 3) / 4]
}

#[test]
fn standard_id_key_is_shifted() {
    assert_eq!(Id::Standard(0x100).key(), 0x100 << 18);
    assert_eq!(Id::Standard(0x050).key(), 0x050 << 18);
    assert_eq!(Id::Standard(0x7FF).key(), 0x7FF << 18);
}

#[test]
fn extended_id_key_sets_marker_bit() {
    assert_eq!(Id::Extended(0x1234).key(), 0x1234 | 0x4000_0000);
}

#[test]
fn lower_standard_id_means_lower_key() {
    assert!(Id::Standard(0x050).key() < Id::Standard(0x100).key());
    assert!(Id::Standard(0x7FF).key() < Id::Extended(0).key());
    assert!(Id::Extended(1).key() < Id::Extended(2).key());
}

#[test]
fn id_key_roundtrip() {
    for id in [Id::Standard(0), Id::Standard(0x100), Id::Standard(0x7FF), Id::Extended(0),
        Id::Extended(0x1FFF_FFFF)] {
        assert_eq!(id_of_key(id.key()), id);
    }
}

#[test]
fn tx_header_words_roundtrip() {
    for len in [0u8, 1, 7, 8, 63, 64] {
        let h = TxFrameHeader {
            len,
            id: Id::Standard(0x2A5),
            frame_format: FrameFormat::Fdcan,
            bit_rate_switching: true,
            marker: Some(0xCD),
        };
        let (w0, w1) = tx_header_to_words(&h);
        let back = tx_header_of_words(w0, w1);
        assert_eq!(back.len, len);
        assert_eq!(back.id, h.id);
        assert_eq!(back.frame_format, FrameFormat::Fdcan);
        assert!(back.bit_rate_switching);
        assert_eq!(back.marker, Some(0xCD));
    }
}

#[test]
fn tx_header_word_layout_exact() {
    let h = tx_header(Id::Standard(0x100), 8);
    let (w0, w1) = tx_header_to_words(&h);
    assert_eq!(w0, 0x100 << 18);
    assert_eq!(w1, 8 << 16);
}

#[test]
fn rx_info_words_roundtrip() {
    let info = RxFrameInfo {
        len: 12,
        id: Id::Extended(0x0ABC_DEF0),
        frame_format: FrameFormat::Fdcan,
        bit_rate_switching: true,
        timestamp: 0xBEEF,
        filter_match_index: 27,
    };
    let (w0, w1) = rx_info_to_words(&info);
    let back = rx_info_of_words(w0, w1);
    assert_eq!(back.len, 12);
    assert_eq!(back.id, info.id);
    assert_eq!(back.frame_format, FrameFormat::Fdcan);
    assert!(back.bit_rate_switching);
    assert_eq!(back.timestamp, 0xBEEF);
    assert_eq!(back.filter_match_index, 27);
}

#[test]
fn nominal_timing_masks_are_idempotent() {
    let b = NominalBitTiming { prescaler: 0x3FF, seg1: 0xFF, seg2: 0xFF, sync_jump_width: 0xFF };
    assert_eq!(b.nbrp(), 0x1FF);
    assert_eq!(b.ntseg1(), 0xFF);
    assert_eq!(b.ntseg2(), 0x7F);
    assert_eq!(b.nsjw(), 0x7F);
    let masked = NominalBitTiming {
        prescaler: b.nbrp(),
        seg1: b.ntseg1(),
        seg2: b.ntseg2(),
        sync_jump_width: b.nsjw(),
    };
    assert_eq!(masked.nbrp(), b.nbrp());
    assert_eq!(masked.ntseg1(), b.ntseg1());
    assert_eq!(masked.ntseg2(), b.ntseg2());
    assert_eq!(masked.nsjw(), b.nsjw());
}

#[test]
fn in_range_nominal_timing_is_unchanged() {
    let b = NominalBitTiming { prescaler: 0x1FF, seg1: 0xAB, seg2: 0x7F, sync_jump_width: 0x01 };
    assert_eq!(b.nbrp(), 0x1FF);
    assert_eq!(b.ntseg1(), 0xAB);
    assert_eq!(b.ntseg2(), 0x7F);
    assert_eq!(b.nsjw(), 0x01);
}

#[test]
fn data_timing_masks_are_idempotent() {
    let b = DataBitTiming {
        transceiver_delay_compensation: true,
        prescaler: 0xFF,
        seg1: 0xFF,
        seg2: 0xFF,
        sync_jump_width: 0xFF,
    };
    assert_eq!(b.dbrp(), 0x1F);
    assert_eq!(b.dtseg1(), 0x1F);
    assert_eq!(b.dtseg2(), 0x0F);
    assert_eq!(b.dsjw(), 0x0F);
    let masked = DataBitTiming {
        transceiver_delay_compensation: true,
        prescaler: b.dbrp(),
        seg1: b.dtseg1(),
        seg2: b.dtseg2(),
        sync_jump_width: b.dsjw(),
    };
    assert_eq!(masked.dbrp(), b.dbrp());
    assert_eq!(masked.dtseg1(), b.dtseg1());
    assert_eq!(masked.dtseg2(), b.dtseg2());
    assert_eq!(masked.dsjw(), b.dsjw());
}

#[test]
fn default_config_values() {
    let c = FdCanConfig::default();
    assert_eq!(c.nbtr, NominalBitTiming { prescaler: 0, seg1: 0xA, seg2: 0x3, sync_jump_width: 0x3 });
    assert!(!c.automatic_retransmit);
    assert!(!c.transmit_pause);
    assert_eq!(c.frame_transmit, FrameTransmissionConfig::ClassicCanOnly);
    assert!(!c.non_iso_mode);
    assert!(!c.edge_filtering);
    assert!(c.protocol_exception_handling);
    assert_eq!(c.clock_divider, ClockDivider::_1);
    assert_eq!(c.interrupt_line_config, Interrupts { bits: 0 });
    assert_eq!(c.timestamp_source, TimestampSource::Disabled);
}

#[test]
fn config_builders_replace_fields() {
    let nbtr = NominalBitTiming { prescaler: 9, seg1: 5, seg2: 4, sync_jump_width: 2 };
    let c = FdCanConfig::default()
        .set_nominal_bit_timing(nbtr)
        .set_automatic_retransmit(true)
        .set_transmit_pause(true)
        .set_frame_transmit(FrameTransmissionConfig::AllowFdCanAndBRS)
        .set_clock_divider(ClockDivider::_8)
        .set_timestamp_source(TimestampSource::Prescaler(TimestampPrescaler::_4));
    assert_eq!(c.nbtr, nbtr);
    assert!(c.automatic_retransmit);
    assert!(c.transmit_pause);
    assert_eq!(c.frame_transmit, FrameTransmissionConfig::AllowFdCanAndBRS);
    assert_eq!(c.clock_divider, ClockDivider::_8);
    assert_eq!(c.timestamp_source, TimestampSource::Prescaler(TimestampPrescaler::_4));
}

#[test]
fn interrupt_set_operations() {
    assert_eq!(Interrupts::none().bits(), 0);
    assert_eq!(Interrupts::all().bits(), INTERRUPTS_ALL);
    assert_eq!(Interrupts::from_bits_truncate(0xFFFF_FFFF).bits(), INTERRUPTS_ALL);
    assert_eq!(Interrupt::RxFifo0NewMsg.bit(), 1);
    assert_eq!(Interrupt::BusOff.bit(), 0x8_0000);
}

#[test]
fn standard_filter_words() {
    assert_eq!(StandardFilter::disable().to_word(), 4 << 25);
    let f = StandardFilter {
        filter: FilterType::DedicatedSingle(0x100),
        action: Action::StoreInFifo0,
    };
    assert_eq!(f.to_word(), (0x100 << 11) | 0x100 | (1 << 22) | (1 << 25));
    let r = StandardFilter {
        filter: FilterType::Range { from: 0x10, to: 0x1F },
        action: Action::StoreInFifo1,
    };
    assert_eq!(r.to_word(), (0x10 << 11) | 0x1F | (2 << 22));
}

#[test]
fn extended_filter_words() {
    let (w0, w1) = ExtendedFilter::disable().to_words();
    assert_eq!(w0, 0);
    assert_eq!(w1, 4 << 29);
    let f = ExtendedFilter {
        filter: FilterType::BitMask { filter: 0x1234, mask: 0xFFFF },
        action: Action::Reject,
    };
    let (w0, w1) = f.to_words();
    assert_eq!(w0, 0x1234 | (3 << 29));
    assert_eq!(w1, 0xFFFF | (3 << 29));
}

#[test]
fn reset_instance_has_identity_marker() {
    let i = Instance::reset();
    assert_eq!(i.ctrl.endn, 0x8765_4321);
    assert!(!i.ctrl.init);
    assert_eq!(i.rx0.fill, 0);
}

#[test]
fn into_config_mode_runs_the_init_handshake() {
    let can = FdCan::new(Instance::reset());
    let can = can.into_config_mode();
    assert!(can.control.ctrl.init);
    assert!(can.control.ctrl.cce);
    assert!(can.control.ctrl.tfqm);
    assert!(!can.control.ctrl.power_down);
    assert_eq!(can.control.aux.lss, 28);
    assert_eq!(can.control.aux.lse, 8);
    for i in 0..28 {
        assert_eq!(can.control.aux.flssa[i], StandardFilter::disable().to_word());
    }
}

#[test]
fn leaving_config_applies_the_snapshot() {
    let mut can = FdCan::new(Instance::reset()).into_config_mode();
    let nbtr = NominalBitTiming { prescaler: 25, seg1: 13, seg2: 2, sync_jump_width: 1 };
    can.set_nominal_bit_timing(nbtr);
    can.set_automatic_retransmit(true);
    can.set_frame_transmit(FrameTransmissionConfig::AllowFdCan);
    let can = can.into_normal();
    assert!(!can.control.ctrl.init);
    assert!(!can.control.ctrl.cce);
    assert_eq!(can.control.ctrl.nbrp, 25);
    assert_eq!(can.control.ctrl.ntseg1, 13);
    assert_eq!(can.control.ctrl.ntseg2, 2);
    assert_eq!(can.control.ctrl.nsjw, 1);
    assert!(!can.control.ctrl.dar);
    assert!(can.control.ctrl.fdoe);
    assert!(!can.control.ctrl.brse);
}

#[test]
fn loopback_modes_set_their_wiring() {
    let can = FdCan::new(Instance::reset()).into_config_mode().into_internal_loopback();
    assert!(can.control.ctrl.mon);
    assert!(can.control.ctrl.lbck);
    let can = can.into_config_mode();
    assert!(!can.control.ctrl.mon);
    assert!(!can.control.ctrl.lbck);
    assert!(can.control.ctrl.init);
    let can = can.into_external_loopback();
    assert!(can.control.ctrl.mon);
    assert!(!can.control.ctrl.lbck);
}

#[test]
fn bus_monitoring_and_restricted_bits() {
    let can = FdCan::new(Instance::reset()).into_config_mode().into_bus_monitoring();
    assert!(can.control.ctrl.mon);
    let can = can.into_config_mode().into_restricted();
    assert!(can.control.ctrl.restricted);
}

#[test]
fn free_powers_the_peripheral_down() {
    let mut can = FdCan::new(Instance::reset());
    can.enable_interrupts(Interrupts::all());
    let inst = can.free();
    assert_eq!(inst.aux.ie, 0);
    assert!(inst.ctrl.init);
    assert!(inst.ctrl.power_down);
}

#[test]
fn interrupt_enable_disable_on_handle() {
    let mut can = FdCan::new(Instance::reset());
    can.enable_interrupt(Interrupt::BusOff);
    assert_eq!(can.control.aux.ie, Interrupt::BusOff.bit());
    can.enable_interrupt(Interrupt::RxFifo0NewMsg);
    assert_eq!(can.control.aux.ie, Interrupt::BusOff.bit() | 1);
    can.disable_interrupt(Interrupt::BusOff);
    assert_eq!(can.control.aux.ie, 1);
    can.enable_interrupt_line(InterruptLine::_1, true);
    assert!(can.control.aux.ile1);
    assert!(!can.control.aux.ile0);
}

#[test]
fn error_counters_reflect_the_registers() {
    let mut inst = Instance::reset();
    inst.aux.cel = 3;
    inst.aux.tec = 7;
    inst.aux.rec = 90;
    inst.aux.rp = false;
    let can = FdCan::new(inst);
    let c: ErrorCounters = can.error_counters();
    assert_eq!(c.can_errors, 3);
    assert_eq!(c.transmit_err, 7);
    assert_eq!(c.receive_err, ReceiveErrorOverflow::Normal(90));
    let mut inst = Instance::reset();
    inst.aux.rp = true;
    inst.aux.rec = 128;
    let can = FdCan::new(inst);
    assert_eq!(can.error_counters().receive_err, ReceiveErrorOverflow::Overflow(128));
}

#[test]
fn timestamp_reads_the_counter() {
    let mut inst = Instance::reset();
    inst.aux.tscv = 0x1234;
    let can = FdCan::new(inst).into_config_mode();
    assert_eq!(can.timestamp(), 0x1234);
}

#[test]
fn unsupported_operations_report_instead_of_trapping() {
    let mut can = FdCan::new(Instance::reset());
    assert_eq!(can.clear_request_completed_flag(), Err(Unsupported));
    assert_eq!(can.clear_tx_interrupt(), Err(Unsupported));
}

#[test]
fn transmit_into_empty_queue_uses_mailbox_0() {
    let mut can = FdCan::new(Instance::reset()).into_config_mode().into_normal();
    assert!(can.is_transmitter_idle());
    let h = tx_header(Id::Standard(0x100), 8);
    let r = can.transmit(h, &[0xDEAD_BEEF, 0x0BAD_F00D]);
    assert_eq!(r, Ok(None));
    assert!(can.tx.block.pending[0]);
    assert!(!can.tx.block.pending[1]);
    assert_eq!(can.tx.block.tbsa[0].header0, 0x100 << 18);
    assert_eq!(can.tx.block.tbsa[0].data[0], 0xDEAD_BEEF);
    assert_eq!(can.tx.block.tbsa[0].data[1], 0x0BAD_F00D);
    assert!(!can.is_transmitter_idle());
}

#[test]
fn transmit_fills_mailboxes_in_order() {
    let mut can = FdCan::new(Instance::reset()).into_config_mode().into_normal();
    for id in [0x100u16, 0x200, 0x300] {
        let r = can.transmit(tx_header(Id::Standard(id), 0), &[]);
        assert_eq!(r, Ok(None));
    }
    assert!(can.tx.block.pending.iter().all(|p| *p));
    assert!(can.tx.tx_queue_is_full());
}

#[test]
fn full_queue_higher_priority_displaces_lowest_index_eligible() {
    let mut can = FdCan::new(Instance::reset()).into_config_mode().into_normal();
    for id in [0x100u16, 0x200, 0x300] {
        can.transmit(tx_header(Id::Standard(id), 0), &[]).unwrap();
    }
    // Frame B outranks all three pending frames; mailbox 0 is the first
    // eligible and its frame is torn up.
    let r = can.transmit(tx_header(Id::Standard(0x050), 0), &[]);
    assert_eq!(r, Ok(Some(())));
    assert_eq!(can.tx.block.tbsa[0].header0, 0x050 << 18);
    assert!(can.tx.block.cancel_finished[0]);
    assert!(!can.tx.block.transmission_occurred[0]);
}

#[test]
fn full_queue_of_higher_priority_frames_would_block() {
    let mut can = FdCan::new(Instance::reset()).into_config_mode().into_normal();
    for id in [0x100u16, 0x200, 0x300] {
        can.transmit(tx_header(Id::Standard(id), 0), &[]).unwrap();
    }
    // Frame C has the lowest priority on offer; nothing may be displaced.
    let r = can.transmit(tx_header(Id::Standard(0x7FF), 0), &[]);
    assert_eq!(r, Err(nb::Error::WouldBlock));
    assert_eq!(can.tx.block.tbsa[0].header0, 0x100 << 18);
    assert_eq!(can.tx.block.tbsa[1].header0, 0x200 << 18);
    assert_eq!(can.tx.block.tbsa[2].header0, 0x300 << 18);
}

#[test]
fn equal_priority_never_preempts() {
    let mut can = FdCan::new(Instance::reset()).into_config_mode().into_normal();
    for _ in 0..3 {
        can.transmit(tx_header(Id::Standard(0x100), 0), &[]).unwrap();
    }
    let r = can.transmit(tx_header(Id::Standard(0x100), 0), &[]);
    assert_eq!(r, Err(nb::Error::WouldBlock));
}

#[test]
fn eviction_scans_mailboxes_in_index_order() {
    let mut can = FdCan::new(Instance::reset()).into_config_mode().into_normal();
    for id in [0x400u16, 0x400, 0x400] {
        can.transmit(tx_header(Id::Standard(id), 0), &[]).unwrap();
    }
    // Each call beats only the original occupants, so the scan settles on
    // mailboxes 0, 1 and 2 in turn.
    can.transmit(tx_header(Id::Standard(0x150), 0), &[]).unwrap();
    assert_eq!(can.tx.block.tbsa[0].header0, 0x150 << 18);
    can.transmit(tx_header(Id::Standard(0x200), 0), &[]).unwrap();
    assert_eq!(can.tx.block.tbsa[1].header0, 0x200 << 18);
    can.transmit(tx_header(Id::Standard(0x250), 0), &[]).unwrap();
    assert_eq!(can.tx.block.tbsa[2].header0, 0x250 << 18);
}

#[test]
fn displacement_lost_race_reports_none() {
    let mut can = FdCan::new(Instance::reset()).into_config_mode().into_normal();
    for id in [0x100u16, 0x200, 0x300] {
        can.transmit(tx_header(Id::Standard(id), 0), &[]).unwrap();
    }
    // The silicon has started sending mailbox 0's frame: a cancel loses the
    // race and no displacement is reported, but the slot is free regardless.
    can.tx.block.in_transmission[0] = true;
    let r = can.transmit(tx_header(Id::Standard(0x050), 0), &[]);
    assert_eq!(r, Ok(None));
    assert_eq!(can.tx.block.tbsa[0].header0, 0x050 << 18);
    assert!(can.tx.block.transmission_occurred[0]);
}

#[test]
fn abort_on_empty_mailbox_does_nothing() {
    let mut can = FdCan::new(Instance::reset()).into_config_mode().into_normal();
    let before = can.tx.block.cancel_finished;
    assert!(!can.abort(Mailbox::_1));
    assert_eq!(can.tx.block.cancel_finished, before);
    assert!(can.is_transmitter_idle());
}

#[test]
fn abort_stops_a_queued_frame() {
    let mut can = FdCan::new(Instance::reset()).into_config_mode().into_normal();
    can.transmit(tx_header(Id::Standard(0x123), 0), &[]).unwrap();
    assert!(can.abort(Mailbox::_0));
    assert!(!can.tx.block.pending[0]);
    assert!(can.tx.block.cancel_finished[0]);
    assert!(!can.tx.block.transmission_occurred[0]);
    assert!(can.is_transmitter_idle());
}

#[test]
fn abort_loses_to_a_frame_on_the_wire() {
    let mut can = FdCan::new(Instance::reset()).into_config_mode().into_normal();
    can.transmit(tx_header(Id::Standard(0x123), 0), &[]).unwrap();
    can.tx.block.in_transmission[0] = true;
    assert!(!can.abort(Mailbox::_0));
    assert!(!can.tx.block.pending[0]);
    assert!(can.tx.block.transmission_occurred[0]);
}

#[test]
fn receive_on_empty_fifo_would_block() {
    let mut can = FdCan::new(Instance::reset()).into_config_mode().into_normal();
    let before_get = can.rx0.block.get_index;
    let r = can.receive0(|_info, payload: Vec<u8>| payload.len());
    assert!(matches!(r, Err(nb::Error::WouldBlock)));
    assert_eq!(can.rx0.block.fill, 0);
    assert_eq!(can.rx0.block.get_index, before_get);
}

#[test]
fn receive_hands_exactly_the_stamped_bytes() {
    let mut can = FdCan::new(Instance::reset()).into_config_mode().into_normal();
    let info = rx_info(Id::Standard(0x321), 8, 77, 5);
    can.rx0.block.hw_store_frame(&info, &[0x0403_0201, 0x0807_0605]);
    assert_eq!(can.rx0.block.fill, 1);
    let r = can.receive0(|i, payload: Vec<u8>| (i.len, i.timestamp, payload));
    match r {
        Ok(ReceiveOverrun::NoOverrun((len, ts, payload))) => {
            assert_eq!(len, 8);
            assert_eq!(ts, 77);
            assert_eq!(payload, vec![1, 2, 3, 4, 5, 6, 7, 8]);
        },
        other => panic!("unexpected result: {:?}", other.map(|o| o.unwrap().0)),
    }
    assert_eq!(can.rx0.block.fill, 0);
    assert_eq!(can.rx0.block.get_index, 1);
}

#[test]
fn receive_advances_the_read_index_once_per_call() {
    let mut can = FdCan::new(Instance::reset()).into_config_mode().into_normal();
    for ts in [1u16, 2, 3] {
        can.rx0.block.hw_store_frame(&rx_info(Id::Standard(1), 4, ts, 0), &[ts as u32]);
    }
    assert_eq!(can.rx0.block.fill, 3);
    let r1 = can.receive0(|i, _| i.timestamp).unwrap().unwrap();
    let r2 = can.receive0(|i, _| i.timestamp).unwrap().unwrap();
    let r3 = can.receive0(|i, _| i.timestamp).unwrap().unwrap();
    assert_eq!((r1, r2, r3), (1, 2, 3));
    assert_eq!(can.rx0.block.fill, 0);
    assert_eq!(can.rx0.block.get_index, 0);
}

#[test]
fn overrun_flag_wraps_the_result() {
    let mut can = FdCan::new(Instance::reset()).into_config_mode().into_normal();
    can.rx1.block.hw_store_frame(&rx_info(Id::Standard(2), 1, 0, 0), &[0xAA]);
    can.rx1.block.message_lost = true;
    let r = can.receive1(|_, payload: Vec<u8>| payload[0]);
    match r {
        Ok(ReceiveOverrun::Overrun(b)) => assert_eq!(b, 0xAA),
        other => panic!("expected an overrun wrap, got {:?}", other),
    }
}

#[test]
fn receive_overrun_unwrap_returns_either_arm() {
    assert_eq!(ReceiveOverrun::NoOverrun(5u8).unwrap(), 5);
    assert_eq!(ReceiveOverrun::Overrun(7u8).unwrap(), 7);
}

#[test]
fn split_and_combine_preserve_the_state() {
    let mut can = FdCan::new(Instance::reset()).into_config_mode().into_normal();
    can.transmit(tx_header(Id::Standard(0x77), 0), &[]).unwrap();
    let (control, mut tx, rx0, rx1) = can.split();
    assert!(!tx.is_idle());
    assert!(tx.abort(Mailbox::_0));
    let can = FdCan::combine((control, tx, rx0, rx1));
    assert!(can.is_transmitter_idle());
}

#[test]
fn split_by_ref_borrows_all_roles() {
    let mut can = FdCan::new(Instance::reset()).into_config_mode().into_normal();
    {
        let (control, tx, rx0, _rx1) = can.split_by_ref();
        assert_eq!(control.timestamp(), 0);
        assert!(tx.is_idle());
        assert!(rx0.rx_fifo_is_empty());
    }
    assert!(can.is_transmitter_idle());
}

#[test]
fn set_filters_write_the_tables() {
    let mut can = FdCan::new(Instance::reset()).into_config_mode();
    let f = StandardFilter {
        filter: FilterType::DedicatedSingle(0x100),
        action: Action::StoreInFifo0,
    };
    can.set_standard_filter(3, f);
    assert_eq!(can.control.aux.flssa[3], f.to_word());
    let e = ExtendedFilter {
        filter: FilterType::DualId { id1: 0x10, id2: 0x20 },
        action: Action::StoreInFifo1,
    };
    can.set_extended_filter(7, e);
    let (w0, w1) = e.to_words();
    assert_eq!(can.control.aux.flesa[7].w0, w0);
    assert_eq!(can.control.aux.flesa[7].w1, w1);
    let all = [f; 28];
    can.set_standard_filters(&all);
    for i in 0..28 {
        assert_eq!(can.control.aux.flssa[i], f.to_word());
    }
    let all_e = [e; 8];
    can.set_extended_filters(&all_e);
    for i in 0..8 {
        assert_eq!(can.control.aux.flesa[i].w0, w0);
    }
}

#[test]
fn clock_divider_and_timestamp_source_registers() {
    let mut can = FdCan::new(Instance::reset()).into_config_mode();
    can.set_clock_divider(ClockDivider::_16);
    assert_eq!(can.control.aux.pdiv, 8);
    can.set_timestamp_counter_source(TimestampSource::Prescaler(TimestampPrescaler::_3));
    assert_eq!(can.control.aux.tcp, 3);
    assert_eq!(can.control.aux.tss, 1);
    can.set_timestamp_counter_source(TimestampSource::FromTIM3);
    assert_eq!(can.control.aux.tcp, 0);
    assert_eq!(can.control.aux.tss, 2);
}

#[test]
fn payload_shorter_than_a_full_word_is_padded_by_the_caller() {
    let mut can = FdCan::new(Instance::reset()).into_config_mode().into_normal();
    // A 6-byte frame occupies two words; the encoded length stays 6.
    let h = tx_header(Id::Standard(0x30), 6);
    assert_eq!(words_for(6).len(), 2);
    can.transmit(h, &[0x0403_0201, 0x0000_0605]).unwrap();
    let back = tx_header_of_words(can.tx.block.tbsa[0].header0, can.tx.block.tbsa[0].header1);
    assert_eq!(back.len, 6);
    assert_eq!(back.id, Id::Standard(0x30));
}

#[test]
fn powered_down_cycle_keeps_the_configuration() {
    let mut can = FdCan::new(Instance::reset()).into_config_mode();
    can.set_transmit_pause(true);
    let can = can.into_powered_down();
    assert!(can.control.ctrl.power_down);
    assert!(can.control.config.transmit_pause);
    let can = can.into_config_mode();
    assert!(!can.control.ctrl.power_down);
    assert!(can.control.ctrl.txp);
}

#[test]
fn test_mode_sets_and_clears_test_access() {
    let can = FdCan::new(Instance::reset()).into_config_mode().into_test_mode();
    assert!(can.control.ctrl.test_enabled);
    let can = can.into_config_mode();
    assert!(!can.control.ctrl.test_enabled);
}

#[test]
fn transmit_with_a_partially_filled_queue_never_blocks() {
    let mut can = FdCan::new(Instance::reset()).into_config_mode().into_normal();
    can.transmit(tx_header(Id::Standard(0x001), 0), &[]).unwrap();
    can.transmit(tx_header(Id::Standard(0x002), 0), &[]).unwrap();
    // Two mailboxes hold the highest-priority ids on the bus, but a free
    // mailbox remains, so even the lowest-priority frame is accepted.
    let r = can.transmit(tx_header(Id::Standard(0x7FF), 0), &[]);
    assert_eq!(r, Ok(None));
    assert_eq!(can.tx.block.tbsa[2].header0, 0x7FF << 18);
}

#[test]
fn extended_ids_rank_below_standard_ids() {
    let mut can = FdCan::new(Instance::reset()).into_config_mode().into_normal();
    for id in [Id::Extended(0), Id::Extended(1), Id::Extended(2)] {
        can.transmit(tx_header(id, 0), &[]).unwrap();
    }
    // Any standard id outranks every extended id in this register encoding.
    let r = can.transmit(tx_header(Id::Standard(0x7FF), 0), &[]);
    assert_eq!(r, Ok(Some(())));
    assert_eq!(can.tx.block.tbsa[0].header0, 0x7FF << 18);
}

#[test]
fn fifo_slots_wrap_around() {
    let mut can = FdCan::new(Instance::reset()).into_config_mode().into_normal();
    for ts in [1u16, 2] {
        can.rx0.block.hw_store_frame(&rx_info(Id::Standard(1), 1, ts, 0), &[ts as u32]);
    }
    assert_eq!(can.receive0(|i, _| i.timestamp).unwrap().unwrap(), 1);
    // The freed slot behind the read index is reused.
    can.rx0.block.hw_store_frame(&rx_info(Id::Standard(1), 1, 3, 0), &[3]);
    can.rx0.block.hw_store_frame(&rx_info(Id::Standard(1), 1, 4, 0), &[4]);
    assert_eq!(can.rx0.block.fill, 3);
    assert_eq!(can.receive0(|i, _| i.timestamp).unwrap().unwrap(), 2);
    assert_eq!(can.receive0(|i, _| i.timestamp).unwrap().unwrap(), 3);
    assert_eq!(can.receive0(|i, _| i.timestamp).unwrap().unwrap(), 4);
    assert_eq!(can.rx0.block.fill, 0);
}

#[test]
fn zero_length_frame_hands_an_empty_payload() {
    let mut can = FdCan::new(Instance::reset()).into_config_mode().into_normal();
    can.rx0.block.hw_store_frame(&rx_info(Id::Standard(9), 0, 0, 0), &[]);
    let r = can.receive0(|_, payload: Vec<u8>| payload).unwrap().unwrap();
    assert!(r.is_empty());
}

#[test]
fn apply_config_writes_every_register_field() {
    let mut can = FdCan::new(Instance::reset()).into_config_mode();
    let cfg = FdCanConfig::default()
        .set_nominal_bit_timing(NominalBitTiming {
            prescaler: 3,
            seg1: 10,
            seg2: 5,
            sync_jump_width: 1,
        })
        .set_data_bit_timing(DataBitTiming {
            transceiver_delay_compensation: false,
            prescaler: 1,
            seg1: 6,
            seg2: 3,
            sync_jump_width: 1,
        })
        .set_automatic_retransmit(true)
        .set_frame_transmit(FrameTransmissionConfig::AllowFdCanAndBRS)
        .set_interrupt_line_config(Interrupts::from_bits_truncate(0xF));
    can.apply_config(cfg);
    assert_eq!(can.control.ctrl.nbrp, 3);
    assert_eq!(can.control.ctrl.dbrp, 1);
    assert!(!can.control.ctrl.dar);
    assert!(can.control.ctrl.fdoe);
    assert!(can.control.ctrl.brse);
    assert_eq!(can.control.aux.ils, 0xF);
    assert_eq!(can.control.config.nbtr.prescaler, 3);
}
