//! Standard and extended CAN identifiers and their arbitration ordering.

use vstd::prelude::*;

verus! {

/// A CAN frame identifier: an 11-bit standard id or a 29-bit extended id.
#[derive(Clone, Copy, Debug, PartialEq, Eq, Structural)]
pub enum Id {
    /// Standard 11-bit identifier, at most `0x7FF`.
    Standard(u16),
    /// Extended 29-bit identifier, at most `0x1FFF_FFFF`.
    Extended(u32),
}

/// Bit that marks an identifier word as carrying an extended id.
pub const ID_EXTENDED_BIT: u32 = 0x4000_0000;

impl Id {
    /// The raw identifier value fits in its 11-bit or 29-bit field.
    pub open spec fn wf(self) -> bool {
        match self {
            Id::Standard(s) => s <= 0x7FF,
            Id::Extended(e) => e <= 0x1FFF_FFFF,
        }
    }

    /// The identifier word as stored in message RAM. A standard id sits in the
    /// top bits of the 29-bit field so that, compared as plain integers, a
    /// lower key is exactly a higher bus-arbitration priority (dominant bits
    /// win on the wire, and a standard id outranks any extended id here).
    pub open spec fn spec_key(self) -> u32 {
        match self {
            Id::Standard(s) => (s as u32) << 18,
            Id::Extended(e) => e | ID_EXTENDED_BIT,
        }
    }

    /// Encode the identifier into its message-RAM word.
    pub fn key(self) -> (k: u32)
        ensures
            k == self.spec_key(),
    {
        match self {
            Id::Standard(s) => (s as u32) << 18u32,
            Id::Extended(e) => e | ID_EXTENDED_BIT,
        }
    }
}

/// Decode of an identifier word back into an identifier.
pub open spec fn spec_id_of_key(k: u32) -> Id {
    if k & ID_EXTENDED_BIT != 0 {
        Id::Extended(k & 0x1FFF_FFFF)
    } else {
        Id::Standard(((k >> 18) & 0x7FF) as u16)
    }
}

/// Decode an identifier word back into an identifier.
pub fn id_of_key(k: u32) -> (id: Id)
    ensures
        id == spec_id_of_key(k),
{
    if k & ID_EXTENDED_BIT != 0 {
        Id::Extended(k & 0x1FFF_FFFF)
    } else {
        Id::Standard(((k >> 18u32) & 0x7FF) as u16)
    }
}

/// A well-formed identifier survives the trip through its message-RAM word.
pub proof fn lemma_id_key_roundtrip(id: Id)
    requires
        id.wf(),
    ensures
        spec_id_of_key(id.spec_key()) == id,
        spec_id_of_key(id.spec_key()).wf(),
{
    match id {
        Id::Standard(s) => {
            assert(s <= 0x7FF ==> ((s as u32) << 18) & 0x4000_0000 == 0 && ((((s as u32) << 18)
                >> 18) & 0x7FF) == s as u32) by (bit_vector);
        },
        Id::Extended(e) => {
            assert(e <= 0x1FFF_FFFF ==> (e | 0x4000_0000) & 0x4000_0000 != 0 && ((e | 0x4000_0000)
                & 0x1FFF_FFFF) == e) by (bit_vector);
        },
    }
}

/// Among two standard or two extended identifiers the numerically lower one
/// has the lower key, hence the higher arbitration priority; a standard
/// identifier always outranks an extended one.
pub proof fn lemma_key_orders_priority(a: Id, b: Id)
    requires
        a.wf(),
        b.wf(),
    ensures
        a is Standard && b is Standard ==> (a.spec_key() < b.spec_key() <==> a->Standard_0
            < b->Standard_0),
        a is Extended && b is Extended ==> (a.spec_key() < b.spec_key() <==> a->Extended_0
            < b->Extended_0),
        a is Standard && b is Extended ==> a.spec_key() < b.spec_key(),
{
    match (a, b) {
        (Id::Standard(x), Id::Standard(y)) => {
            assert(x <= 0x7FF && y <= 0x7FF ==> (((x as u32) << 18) < ((y as u32) << 18) <==> x
                < y)) by (bit_vector);
        },
        (Id::Standard(x), Id::Extended(y)) => {
            assert(x <= 0x7FF ==> ((x as u32) << 18) < (y | 0x4000_0000)) by (bit_vector);
        },
        (Id::Extended(x), Id::Extended(y)) => {
            assert(x <= 0x1FFF_FFFF && y <= 0x1FFF_FFFF ==> ((x | 0x4000_0000) < (y | 0x4000_0000)
                <==> x < y)) by (bit_vector);
        },
        _ => {},
    }
}

} // verus!
