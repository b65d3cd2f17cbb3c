//! Frame filters and their packed filter-table words.

use vstd::prelude::*;

verus! {

/// Number of standard filter slots in message RAM.
pub const STANDARD_FILTER_MAX: u8 = 28;

/// Number of extended filter slots in message RAM.
pub const EXTENDED_FILTER_MAX: u8 = 8;

/// What to do with a frame that matches a filter.
#[derive(Clone, Copy, Debug, PartialEq, Eq, Structural)]
pub enum Action {
    /// The filter slot is disabled.
    Disable,
    /// Store the frame in receive FIFO 0.
    StoreInFifo0,
    /// Store the frame in receive FIFO 1.
    StoreInFifo1,
    /// Reject the frame.
    Reject,
    /// Flag the frame as high priority without storing it.
    FlagHighPrio,
    /// Flag as high priority and store in receive FIFO 0.
    FlagHighPrioAndStoreInFifo0,
    /// Flag as high priority and store in receive FIFO 1.
    FlagHighPrioAndStoreInFifo1,
}

impl Action {
    /// The action code stored in a filter element.
    pub open spec fn spec_code(self) -> u32 {
        match self {
            Action::Disable => 0,
            Action::StoreInFifo0 => 1,
            Action::StoreInFifo1 => 2,
            Action::Reject => 3,
            Action::FlagHighPrio => 4,
            Action::FlagHighPrioAndStoreInFifo0 => 5,
            Action::FlagHighPrioAndStoreInFifo1 => 6,
        }
    }

    /// The action code stored in a filter element.
    pub fn code(self) -> (c: u32)
        ensures
            c == self.spec_code(),
    {
        match self {
            Action::Disable => 0,
            Action::StoreInFifo0 => 1,
            Action::StoreInFifo1 => 2,
            Action::Reject => 3,
            Action::FlagHighPrio => 4,
            Action::FlagHighPrioAndStoreInFifo0 => 5,
            Action::FlagHighPrioAndStoreInFifo1 => 6,
        }
    }
}

/// The match rule of a filter over identifiers of width `ID`.
#[derive(Clone, Copy, Debug, PartialEq, Eq, Structural)]
pub enum FilterType<ID> {
    /// Match every identifier from `from` to `to`, both inclusive.
    Range {
        /// Lowest matching identifier.
        from: ID,
        /// Highest matching identifier.
        to: ID,
    },
    /// Match exactly one identifier.
    DedicatedSingle(ID),
    /// Match either of two identifiers.
    DualId {
        /// First matching identifier.
        id1: ID,
        /// Second matching identifier.
        id2: ID,
    },
    /// Match `filter` under `mask`: bits set in the mask must equal the filter.
    BitMask {
        /// Pattern the masked identifier must equal.
        filter: ID,
        /// Which identifier bits take part in the comparison.
        mask: ID,
    },
    /// Match nothing.
    Disabled,
}

impl<ID> FilterType<ID> {
    /// The rule code stored in a filter element.
    pub open spec fn spec_code(self) -> u32 {
        match self {
            FilterType::Range { .. } => 0,
            FilterType::DedicatedSingle(_) => 1,
            FilterType::DualId { .. } => 2,
            FilterType::BitMask { .. } => 3,
            FilterType::Disabled => 4,
        }
    }

    /// The two identifier fields stored in a filter element.
    pub open spec fn spec_fields(self, zero: ID) -> (ID, ID) {
        match self {
            FilterType::Range { from, to } => (from, to),
            FilterType::DedicatedSingle(id) => (id, id),
            FilterType::DualId { id1, id2 } => (id1, id2),
            FilterType::BitMask { filter, mask } => (filter, mask),
            FilterType::Disabled => (zero, zero),
        }
    }
}

/// A filter over standard 11-bit identifiers.
#[derive(Clone, Copy, Debug, PartialEq, Eq, Structural)]
pub struct StandardFilter {
    /// The match rule; identifiers are at most `0x7FF`.
    pub filter: FilterType<u16>,
    /// What to do with a matching frame.
    pub action: Action,
}

/// A filter over extended 29-bit identifiers.
#[derive(Clone, Copy, Debug, PartialEq, Eq, Structural)]
pub struct ExtendedFilter {
    /// The match rule; identifiers are at most `0x1FFF_FFFF`.
    pub filter: FilterType<u32>,
    /// What to do with a matching frame.
    pub action: Action,
}

impl StandardFilter {
    /// A filter slot that matches nothing.
    pub fn disable() -> (r: Self)
        ensures
            r == (StandardFilter { filter: FilterType::Disabled, action: Action::Disable }),
    {
        StandardFilter { filter: FilterType::Disabled, action: Action::Disable }
    }

    /// The filter packed as its table word: second identifier field in bits
    /// 0..11, first in bits 11..22, action code in bits 22..25, rule code in
    /// bits 25..28. Identifier fields are masked to 11 bits.
    pub open spec fn spec_word(self) -> u32 {
        ((self.spec_field1() & 0x7FF) as u32) << 11 | ((self.spec_field2() & 0x7FF) as u32)
            | self.action.spec_code() << 22 | self.filter.spec_code() << 25
    }

    /// First identifier field of the rule.
    pub open spec fn spec_field1(self) -> u16 {
        self.filter.spec_fields(0u16).0
    }

    /// Second identifier field of the rule.
    pub open spec fn spec_field2(self) -> u16 {
        self.filter.spec_fields(0u16).1
    }

    /// Pack the filter into its table word.
    pub fn to_word(self) -> (w: u32)
        ensures
            w == self.spec_word(),
    {
        let (f1, f2): (u16, u16) = match self.filter {
            FilterType::Range { from, to } => (from, to),
            FilterType::DedicatedSingle(id) => (id, id),
            FilterType::DualId { id1, id2 } => (id1, id2),
            FilterType::BitMask { filter, mask } => (filter, mask),
            FilterType::Disabled => (0, 0),
        };
        let tcode: u32 = match self.filter {
            FilterType::Range { .. } => 0,
            FilterType::DedicatedSingle(_) => 1,
            FilterType::DualId { .. } => 2,
            FilterType::BitMask { .. } => 3,
            FilterType::Disabled => 4,
        };
        ((f1 & 0x7FF) as u32) << 11u32 | ((f2 & 0x7FF) as u32) | self.action.code() << 22u32
            | tcode << 25u32
    }
}

impl ExtendedFilter {
    /// A filter slot that matches nothing.
    pub fn disable() -> (r: Self)
        ensures
            r == (ExtendedFilter { filter: FilterType::Disabled, action: Action::Disable }),
    {
        ExtendedFilter { filter: FilterType::Disabled, action: Action::Disable }
    }

    /// First identifier field of the rule.
    pub open spec fn spec_field1(self) -> u32 {
        self.filter.spec_fields(0u32).0
    }

    /// Second identifier field of the rule.
    pub open spec fn spec_field2(self) -> u32 {
        self.filter.spec_fields(0u32).1
    }

    /// First table word: action code in bits 29..32 over the first identifier
    /// field, masked to 29 bits.
    pub open spec fn spec_word0(self) -> u32 {
        (self.spec_field1() & 0x1FFF_FFFF) | self.action.spec_code() << 29
    }

    /// Second table word: rule code in bits 29..32 over the second identifier
    /// field, masked to 29 bits.
    pub open spec fn spec_word1(self) -> u32 {
        (self.spec_field2() & 0x1FFF_FFFF) | self.filter.spec_code() << 29
    }

    /// Pack the filter into its two table words.
    pub fn to_words(self) -> (w: (u32, u32))
        ensures
            w.0 == self.spec_word0(),
            w.1 == self.spec_word1(),
    {
        let (f1, f2): (u32, u32) = match self.filter {
            FilterType::Range { from, to } => (from, to),
            FilterType::DedicatedSingle(id) => (id, id),
            FilterType::DualId { id1, id2 } => (id1, id2),
            FilterType::BitMask { filter, mask } => (filter, mask),
            FilterType::Disabled => (0, 0),
        };
        let tcode: u32 = match self.filter {
            FilterType::Range { .. } => 0,
            FilterType::DedicatedSingle(_) => 1,
            FilterType::DualId { .. } => 2,
            FilterType::BitMask { .. } => 3,
            FilterType::Disabled => 4,
        };
        ((f1 & 0x1FFF_FFFF) | self.action.code() << 29u32, (f2 & 0x1FFF_FFFF) | tcode << 29u32)
    }
}

} // verus!
