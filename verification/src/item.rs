//! The hardware's transmission record: two pulses in thirty-two bits.

use vstd::prelude::*;
use crate::pulse::Pulse;

verus! {

/// Two pulses packed into one record. The first pulse lies in the low sixteen
/// bits, the second in the high sixteen; in each half the tick count takes
/// the low fifteen bits and the level the bit above them.
#[derive(Clone, Copy, Debug, PartialEq, Eq, Structural)]
pub struct Item {
    pub val: u32,
}

impl Item {
    /// The record that holds `first` and `second`, as a number.
    pub open spec fn spec_pack(first: Pulse, second: Pulse) -> nat {
        first.spec_half_word() + 65536 * second.spec_half_word()
    }

    /// The sixteen bits of the first pulse.
    pub open spec fn spec_low_half(self) -> nat {
        (self.val % 65536) as nat
    }

    /// The sixteen bits of the second pulse.
    pub open spec fn spec_high_half(self) -> nat {
        (self.val / 65536) as nat
    }

    /// The first pulse of the record.
    pub open spec fn spec_first(self) -> Pulse {
        Pulse::spec_from_half_word(self.spec_low_half())
    }

    /// The second pulse of the record.
    pub open spec fn spec_second(self) -> Pulse {
        Pulse::spec_from_half_word(self.spec_high_half())
    }

    /// The record with all bits clear: both pulses low, for no ticks.
    pub fn zero() -> (item: Item)
        ensures
            item.val == 0,
    {
        Item { val: 0 }
    }

    /// The record that holds `first` and `second`.
    pub fn new(first: &Pulse, second: &Pulse) -> (item: Item)
        ensures
            item.val == Item::spec_pack(*first, *second),
    {
        let lo: u32 = first.half_word() as u32;
        let hi: u32 = second.half_word() as u32;
        assert(lo | (hi << 16) == lo + 65536 * hi) by (bit_vector)
            requires
                lo <= 0xffff,
                hi <= 0xffff,
        ;
        Item { val: lo | (hi << 16) }
    }

    /// The record that holds `first` alone: its second half is clear.
    pub fn from_first(first: &Pulse) -> (item: Item)
        ensures
            item.val == first.spec_half_word(),
    {
        Item { val: first.half_word() as u32 }
    }

    /// Overwrites the second pulse and keeps the first.
    pub fn set_second(&mut self, second: &Pulse)
        ensures
            final(self).val == old(self).spec_low_half() + 65536 * second.spec_half_word(),
    {
        let hi: u32 = second.half_word() as u32;
        let v: u32 = self.val;
        assert((v & 0xffff) | (hi << 16) == (v % 65536) + 65536 * hi) by (bit_vector)
            requires
                hi <= 0xffff,
        ;
        self.val = (v & 0xffff) | (hi << 16);
    }

    /// The first pulse of the record.
    pub fn first(&self) -> (p: Pulse)
        ensures
            p == self.spec_first(),
    {
        let v: u32 = self.val;
        assert(v & 0xffff == v % 65536 && v & 0xffff <= 0xffff) by (bit_vector);
        Pulse::from_half_word((v & 0xffff) as u16)
    }

    /// The second pulse of the record.
    pub fn second(&self) -> (p: Pulse)
        ensures
            p == self.spec_second(),
    {
        let v: u32 = self.val;
        assert(v >> 16 == v / 65536 && v >> 16 <= 0xffff) by (bit_vector);
        Pulse::from_half_word((v >> 16) as u16)
    }
}

/// Packing two pulses of the domain loses nothing: the record fits in
/// thirty-two bits, and its halves decode to the two pulses.
pub proof fn lemma_pack_round_trip(first: Pulse, second: Pulse)
    requires
        first.in_domain(),
        second.in_domain(),
    ensures
        Item::spec_pack(first, second) <= u32::MAX,
        (Item { val: Item::spec_pack(first, second) as u32 }).spec_first() == first,
        (Item { val: Item::spec_pack(first, second) as u32 }).spec_second() == second,
{
    crate::pulse::lemma_half_word_round_trip(first);
    crate::pulse::lemma_half_word_round_trip(second);
}

/// Every record is the packing of the two pulses it decodes to.
pub proof fn lemma_unpack_round_trip(item: Item)
    ensures
        item.spec_first().in_domain(),
        item.spec_second().in_domain(),
        Item::spec_pack(item.spec_first(), item.spec_second()) == item.val,
{
    crate::pulse::lemma_from_half_word(item.spec_low_half());
    crate::pulse::lemma_from_half_word(item.spec_high_half());
}

} // verus!
