//! Bit timing and the full configuration snapshot of the peripheral.

use vstd::prelude::*;
use crate::interrupt::Interrupts;

verus! {

/// Nominal (arbitration-phase) bit timing. Each field is masked to its
/// hardware register width when encoded; the hardware interprets every field
/// as the programmed value plus one.
#[derive(Clone, Copy, Debug, PartialEq, Eq, Structural)]
pub struct NominalBitTiming {
    /// Baud-rate prescaler; its register field holds 9 bits.
    pub prescaler: u16,
    /// Time segment before the sample point; its register field holds 8 bits.
    pub seg1: u8,
    /// Time segment after the sample point; its register field holds 7 bits.
    pub seg2: u8,
    /// Synchronisation jump width; its register field holds 7 bits.
    pub sync_jump_width: u8,
}

impl NominalBitTiming {
    /// Prescaler masked to its 9-bit register field.
    pub open spec fn spec_nbrp(self) -> u16 {
        self.prescaler & 0x1FF
    }

    /// Segment 1 masked to its 8-bit register field.
    pub open spec fn spec_ntseg1(self) -> u8 {
        self.seg1 & 0xFF
    }

    /// Segment 2 masked to its 7-bit register field.
    pub open spec fn spec_ntseg2(self) -> u8 {
        self.seg2 & 0x7F
    }

    /// Jump width masked to its 7-bit register field.
    pub open spec fn spec_nsjw(self) -> u8 {
        self.sync_jump_width & 0x7F
    }

    /// Encode the prescaler for its register field.
    pub fn nbrp(&self) -> (r: u16)
        ensures
            r == self.spec_nbrp(),
    {
        self.prescaler & 0x1FF
    }

    /// Encode segment 1 for its register field.
    pub fn ntseg1(&self) -> (r: u8)
        ensures
            r == self.spec_ntseg1(),
    {
        self.seg1 & 0xFF
    }

    /// Encode segment 2 for its register field.
    pub fn ntseg2(&self) -> (r: u8)
        ensures
            r == self.spec_ntseg2(),
    {
        self.seg2 & 0x7F
    }

    /// Encode the jump width for its register field.
    pub fn nsjw(&self) -> (r: u8)
        ensures
            r == self.spec_nsjw(),
    {
        self.sync_jump_width & 0x7F
    }

    /// The timing with every field masked to its register width.
    pub open spec fn spec_masked(self) -> NominalBitTiming {
        NominalBitTiming {
            prescaler: self.spec_nbrp(),
            seg1: self.spec_ntseg1(),
            seg2: self.spec_ntseg2(),
            sync_jump_width: self.spec_nsjw(),
        }
    }

    /// Every field lies within its documented hardware range.
    pub open spec fn spec_in_range(self) -> bool {
        self.prescaler <= 0x1FF && self.seg2 <= 0x7F && self.sync_jump_width <= 0x7F
    }
}

/// Masking a nominal bit timing to its register fields is idempotent, and on
/// values within the documented hardware ranges it changes nothing.
pub proof fn lemma_nominal_mask_idempotent(b: NominalBitTiming)
    ensures
        b.spec_masked().spec_masked() == b.spec_masked(),
        b.spec_in_range() ==> b.spec_masked() == b,
{
    let p = b.prescaler;
    let s1 = b.seg1;
    let s2 = b.seg2;
    let j = b.sync_jump_width;
    assert((p & 0x1FF) & 0x1FF == p & 0x1FF && (p <= 0x1FF ==> p & 0x1FF == p)) by (bit_vector);
    assert((s1 & 0xFF) & 0xFF == s1 & 0xFF && s1 & 0xFF == s1) by (bit_vector);
    assert((s2 & 0x7F) & 0x7F == s2 & 0x7F && (s2 <= 0x7F ==> s2 & 0x7F == s2)) by (bit_vector);
    assert((j & 0x7F) & 0x7F == j & 0x7F && (j <= 0x7F ==> j & 0x7F == j)) by (bit_vector);
}

/// Data-phase bit timing for variable-rate frames. Fields are masked to
/// their register widths when encoded, as with [`NominalBitTiming`].
#[derive(Clone, Copy, Debug, PartialEq, Eq, Structural)]
pub struct DataBitTiming {
    /// Whether transceiver delay compensation is enabled.
    pub transceiver_delay_compensation: bool,
    /// Baud-rate prescaler; its register field holds 5 bits.
    pub prescaler: u8,
    /// Time segment before the sample point; its register field holds 5 bits.
    pub seg1: u8,
    /// Time segment after the sample point; its register field holds 4 bits.
    pub seg2: u8,
    /// Synchronisation jump width; its register field holds 4 bits.
    pub sync_jump_width: u8,
}

impl DataBitTiming {
    /// Prescaler masked to its 5-bit register field.
    pub open spec fn spec_dbrp(self) -> u8 {
        self.prescaler & 0x1F
    }

    /// Segment 1 masked to its 5-bit register field.
    pub open spec fn spec_dtseg1(self) -> u8 {
        self.seg1 & 0x1F
    }

    /// Segment 2 masked to its 4-bit register field.
    pub open spec fn spec_dtseg2(self) -> u8 {
        self.seg2 & 0x0F
    }

    /// Jump width masked to its 4-bit register field.
    pub open spec fn spec_dsjw(self) -> u8 {
        self.sync_jump_width & 0x0F
    }

    /// Encode the prescaler for its register field.
    pub fn dbrp(&self) -> (r: u8)
        ensures
            r == self.spec_dbrp(),
    {
        self.prescaler & 0x1F
    }

    /// Encode segment 1 for its register field.
    pub fn dtseg1(&self) -> (r: u8)
        ensures
            r == self.spec_dtseg1(),
    {
        self.seg1 & 0x1F
    }

    /// Encode segment 2 for its register field.
    pub fn dtseg2(&self) -> (r: u8)
        ensures
            r == self.spec_dtseg2(),
    {
        self.seg2 & 0x0F
    }

    /// Encode the jump width for its register field.
    pub fn dsjw(&self) -> (r: u8)
        ensures
            r == self.spec_dsjw(),
    {
        self.sync_jump_width & 0x0F
    }

    /// The timing with every field masked to its register width.
    pub open spec fn spec_masked(self) -> DataBitTiming {
        DataBitTiming {
            transceiver_delay_compensation: self.transceiver_delay_compensation,
            prescaler: self.spec_dbrp(),
            seg1: self.spec_dtseg1(),
            seg2: self.spec_dtseg2(),
            sync_jump_width: self.spec_dsjw(),
        }
    }

    /// Every field lies within its documented hardware range.
    pub open spec fn spec_in_range(self) -> bool {
        self.prescaler <= 0x1F && self.seg1 <= 0x1F && self.seg2 <= 0x0F && self.sync_jump_width
            <= 0x0F
    }
}

/// Masking a data bit timing to its register fields is idempotent, and on
/// values within the documented hardware ranges it changes nothing.
pub proof fn lemma_data_mask_idempotent(b: DataBitTiming)
    ensures
        b.spec_masked().spec_masked() == b.spec_masked(),
        b.spec_in_range() ==> b.spec_masked() == b,
{
    let p = b.prescaler;
    let s1 = b.seg1;
    let s2 = b.seg2;
    let j = b.sync_jump_width;
    assert((p & 0x1F) & 0x1F == p & 0x1F && (p <= 0x1F ==> p & 0x1F == p)) by (bit_vector);
    assert((s1 & 0x1F) & 0x1F == s1 & 0x1F && (s1 <= 0x1F ==> s1 & 0x1F == s1)) by (bit_vector);
    assert((s2 & 0x0F) & 0x0F == s2 & 0x0F && (s2 <= 0x0F ==> s2 & 0x0F == s2)) by (bit_vector);
    assert((j & 0x0F) & 0x0F == j & 0x0F && (j <= 0x0F ==> j & 0x0F == j)) by (bit_vector);
}

impl Default for NominalBitTiming {
    /// The reset-value bit timing.
    fn default() -> (r: Self)
        ensures
            r == (NominalBitTiming { prescaler: 0, seg1: 0xA, seg2: 0x3, sync_jump_width: 0x3 }),
    {
        Self { prescaler: 0, seg1: 0xA, seg2: 0x3, sync_jump_width: 0x3 }
    }
}

impl Default for DataBitTiming {
    /// The reset-value bit timing.
    fn default() -> (r: Self)
        ensures
            r == (DataBitTiming {
                transceiver_delay_compensation: false,
                prescaler: 0,
                seg1: 0xA,
                seg2: 0x3,
                sync_jump_width: 0x3,
            }),
    {
        Self {
            transceiver_delay_compensation: false,
            prescaler: 0,
            seg1: 0xA,
            seg2: 0x3,
            sync_jump_width: 0x3,
        }
    }
}

/// Which frame kinds the peripheral may transmit.
#[derive(Clone, Copy, Debug, PartialEq, Eq, Structural)]
pub enum FrameTransmissionConfig {
    /// Only classic CAN frames.
    ClassicCanOnly,
    /// CAN-FD frames without bit-rate switching.
    AllowFdCan,
    /// CAN-FD frames with bit-rate switching.
    AllowFdCanAndBRS,
}

/// Divider applied to the peripheral's input clock.
#[derive(Clone, Copy, Debug, PartialEq, Eq, Structural)]
pub enum ClockDivider {
    /// Divide by 1.
    _1,
    /// Divide by 2.
    _2,
    /// Divide by 4.
    _4,
    /// Divide by 6.
    _6,
    /// Divide by 8.
    _8,
    /// Divide by 10.
    _10,
    /// Divide by 12.
    _12,
    /// Divide by 14.
    _14,
    /// Divide by 16.
    _16,
    /// Divide by 18.
    _18,
    /// Divide by 20.
    _20,
    /// Divide by 22.
    _22,
    /// Divide by 24.
    _24,
    /// Divide by 26.
    _26,
    /// Divide by 28.
    _28,
    /// Divide by 30.
    _30,
}

impl ClockDivider {
    /// The value programmed into the divider register field.
    pub open spec fn spec_value(self) -> u8 {
        match self {
            ClockDivider::_1 => 0x0,
            ClockDivider::_2 => 0x1,
            ClockDivider::_4 => 0x2,
            ClockDivider::_6 => 0x3,
            ClockDivider::_8 => 0x4,
            ClockDivider::_10 => 0x5,
            ClockDivider::_12 => 0x6,
            ClockDivider::_14 => 0x7,
            ClockDivider::_16 => 0x8,
            ClockDivider::_18 => 0x9,
            ClockDivider::_20 => 0xA,
            ClockDivider::_22 => 0xB,
            ClockDivider::_24 => 0xC,
            ClockDivider::_26 => 0xD,
            ClockDivider::_28 => 0xE,
            ClockDivider::_30 => 0xF,
        }
    }

    /// The value programmed into the divider register field.
    pub fn value(self) -> (v: u8)
        ensures
            v == self.spec_value(),
    {
        match self {
            ClockDivider::_1 => 0x0,
            ClockDivider::_2 => 0x1,
            ClockDivider::_4 => 0x2,
            ClockDivider::_6 => 0x3,
            ClockDivider::_8 => 0x4,
            ClockDivider::_10 => 0x5,
            ClockDivider::_12 => 0x6,
            ClockDivider::_14 => 0x7,
            ClockDivider::_16 => 0x8,
            ClockDivider::_18 => 0x9,
            ClockDivider::_20 => 0xA,
            ClockDivider::_22 => 0xB,
            ClockDivider::_24 => 0xC,
            ClockDivider::_26 => 0xD,
            ClockDivider::_28 => 0xE,
            ClockDivider::_30 => 0xF,
        }
    }
}

/// Prescaler of the timestamp counter.
#[derive(Clone, Copy, Debug, PartialEq, Eq, Structural)]
pub enum TimestampPrescaler {
    /// Count every bit time.
    _1,
    /// Count every 2 bit times.
    _2,
    /// Count every 3 bit times.
    _3,
    /// Count every 4 bit times.
    _4,
    /// Count every 5 bit times.
    _5,
    /// Count every 6 bit times.
    _6,
    /// Count every 7 bit times.
    _7,
    /// Count every 8 bit times.
    _8,
    /// Count every 9 bit times.
    _9,
    /// Count every 10 bit times.
    _10,
    /// Count every 11 bit times.
    _11,
    /// Count every 12 bit times.
    _12,
    /// Count every 13 bit times.
    _13,
    /// Count every 14 bit times.
    _14,
    /// Count every 15 bit times.
    _15,
    /// Count every 16 bit times.
    _16,
}

impl TimestampPrescaler {
    /// The prescaler as programmed into its register field.
    pub open spec fn spec_value(self) -> u8 {
        match self {
            TimestampPrescaler::_1 => 1,
            TimestampPrescaler::_2 => 2,
            TimestampPrescaler::_3 => 3,
            TimestampPrescaler::_4 => 4,
            TimestampPrescaler::_5 => 5,
            TimestampPrescaler::_6 => 6,
            TimestampPrescaler::_7 => 7,
            TimestampPrescaler::_8 => 8,
            TimestampPrescaler::_9 => 9,
            TimestampPrescaler::_10 => 10,
            TimestampPrescaler::_11 => 11,
            TimestampPrescaler::_12 => 12,
            TimestampPrescaler::_13 => 13,
            TimestampPrescaler::_14 => 14,
            TimestampPrescaler::_15 => 15,
            TimestampPrescaler::_16 => 16,
        }
    }

    /// The prescaler as programmed into its register field.
    pub fn value(self) -> (v: u8)
        ensures
            v == self.spec_value(),
    {
        match self {
            TimestampPrescaler::_1 => 1,
            TimestampPrescaler::_2 => 2,
            TimestampPrescaler::_3 => 3,
            TimestampPrescaler::_4 => 4,
            TimestampPrescaler::_5 => 5,
            TimestampPrescaler::_6 => 6,
            TimestampPrescaler::_7 => 7,
            TimestampPrescaler::_8 => 8,
            TimestampPrescaler::_9 => 9,
            TimestampPrescaler::_10 => 10,
            TimestampPrescaler::_11 => 11,
            TimestampPrescaler::_12 => 12,
            TimestampPrescaler::_13 => 13,
            TimestampPrescaler::_14 => 14,
            TimestampPrescaler::_15 => 15,
            TimestampPrescaler::_16 => 16,
        }
    }
}

/// Source feeding the timestamp counter.
#[derive(Clone, Copy, Debug, PartialEq, Eq, Structural)]
pub enum TimestampSource {
    /// The timestamp counter is disabled.
    Disabled,
    /// The peripheral's own bit clock through a prescaler.
    Prescaler(TimestampPrescaler),
    /// An external timer provides the counter.
    FromTIM3,
}

/// The full configuration snapshot of a peripheral instance. It is mutable
/// only in configuration mode and re-applied in full whenever an operating
/// mode is entered.
#[derive(Clone, Copy, Debug, PartialEq, Eq, Structural)]
pub struct FdCanConfig {
    /// Nominal bit timing.
    pub nbtr: NominalBitTiming,
    /// Data-phase bit timing.
    pub dbtr: DataBitTiming,
    /// Whether frames are retransmitted automatically until they succeed.
    pub automatic_retransmit: bool,
    /// Whether the peripheral pauses between its own transmissions.
    pub transmit_pause: bool,
    /// Which frame kinds may be transmitted.
    pub frame_transmit: FrameTransmissionConfig,
    /// Whether the pre-standard frame format is used.
    pub non_iso_mode: bool,
    /// Whether two consecutive dominant quanta are required to detect an edge.
    pub edge_filtering: bool,
    /// Whether protocol exception handling is enabled.
    pub protocol_exception_handling: bool,
    /// Divider for the peripheral's input clock.
    pub clock_divider: ClockDivider,
    /// Which interrupt line each source is routed to: a zero bit routes the
    /// source to line 0, a one bit to line 1.
    pub interrupt_line_config: Interrupts,
    /// Source of the timestamp counter.
    pub timestamp_source: TimestampSource,
}

impl FdCanConfig {
    /// The snapshot with the nominal bit timing replaced.
    pub fn set_nominal_bit_timing(self, btr: NominalBitTiming) -> (r: Self)
        ensures
            r == (FdCanConfig { nbtr: btr, ..self }),
        {
            FdCanConfig { nbtr: btr, ..self }
    }

    /// The snapshot with the data bit timing replaced.
    pub fn set_data_bit_timing(self, btr: DataBitTiming) -> (r: Self)
        ensures
            r == (FdCanConfig { dbtr: btr, ..self }),
        {
            FdCanConfig { dbtr: btr, ..self }
    }

    /// The snapshot with automatic retransmission switched.
    pub fn set_automatic_retransmit(self, enabled: bool) -> (r: Self)
        ensures
            r == (FdCanConfig { automatic_retransmit: enabled, ..self }),
        {
            FdCanConfig { automatic_retransmit: enabled, ..self }
    }

    /// The snapshot with transmit pausing switched.
    pub fn set_transmit_pause(self, enabled: bool) -> (r: Self)
        ensures
            r == (FdCanConfig { transmit_pause: enabled, ..self }),
        {
            FdCanConfig { transmit_pause: enabled, ..self }
    }

    /// The snapshot with the pre-standard frame format switched.
    pub fn set_non_iso_mode(self, enabled: bool) -> (r: Self)
        ensures
            r == (FdCanConfig { non_iso_mode: enabled, ..self }),
        {
            FdCanConfig { non_iso_mode: enabled, ..self }
    }

    /// The snapshot with edge filtering switched.
    pub fn set_edge_filtering(self, enabled: bool) -> (r: Self)
        ensures
            r == (FdCanConfig { edge_filtering: enabled, ..self }),
        {
            FdCanConfig { edge_filtering: enabled, ..self }
    }

    /// The snapshot with the allowed frame kinds replaced.
    pub fn set_frame_transmit(self, fts: FrameTransmissionConfig) -> (r: Self)
        ensures
            r == (FdCanConfig { frame_transmit: fts, ..self }),
        {
            FdCanConfig { frame_transmit: fts, ..self }
    }

    /// The snapshot with protocol exception handling switched.
    pub fn set_protocol_exception_handling(self, peh: bool) -> (r: Self)
        ensures
            r == (FdCanConfig { protocol_exception_handling: peh, ..self }),
        {
            FdCanConfig { protocol_exception_handling: peh, ..self }
    }

    /// The snapshot with the interrupt-line routing replaced.
    pub fn set_interrupt_line_config(self, l0int: Interrupts) -> (r: Self)
        ensures
            r == (FdCanConfig { interrupt_line_config: l0int, ..self }),
        {
            FdCanConfig { interrupt_line_config: l0int, ..self }
    }

    /// The snapshot with the clock divider replaced.
    pub fn set_clock_divider(self, div: ClockDivider) -> (r: Self)
        ensures
            r == (FdCanConfig { clock_divider: div, ..self }),
        {
            FdCanConfig { clock_divider: div, ..self }
    }

    /// The snapshot with the timestamp source replaced.
    pub fn set_timestamp_source(self, tss: TimestampSource) -> (r: Self)
        ensures
            r == (FdCanConfig { timestamp_source: tss, ..self }),
        {
            FdCanConfig { timestamp_source: tss, ..self }
    }
}

/// The configuration a fresh handle starts from.
pub open spec fn spec_default_config() -> FdCanConfig {
    FdCanConfig {
        nbtr: NominalBitTiming { prescaler: 0, seg1: 0xA, seg2: 0x3, sync_jump_width: 0x3 },
        dbtr: DataBitTiming {
            transceiver_delay_compensation: false,
            prescaler: 0,
            seg1: 0xA,
            seg2: 0x3,
            sync_jump_width: 0x3,
        },
        automatic_retransmit: false,
        transmit_pause: false,
        frame_transmit: FrameTransmissionConfig::ClassicCanOnly,
        non_iso_mode: false,
        edge_filtering: false,
        protocol_exception_handling: true,
        clock_divider: ClockDivider::_1,
        interrupt_line_config: Interrupts { bits: 0 },
        timestamp_source: TimestampSource::Disabled,
    }
}

impl Default for FdCanConfig {
    /// The configuration a fresh handle starts from.
    fn default() -> (r: Self)
        ensures
            r == spec_default_config(),
    {
        Self {
            nbtr: NominalBitTiming::default(),
            dbtr: DataBitTiming::default(),
            automatic_retransmit: false,
            transmit_pause: false,
            frame_transmit: FrameTransmissionConfig::ClassicCanOnly,
            non_iso_mode: false,
            edge_filtering: false,
            protocol_exception_handling: true,
            clock_divider: ClockDivider::_1,
            interrupt_line_config: Interrupts::none(),
            timestamp_source: TimestampSource::Disabled,
        }
    }
}

} // verus!
