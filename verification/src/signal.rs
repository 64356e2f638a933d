//! Signal buffers: sequences of hardware records, ready for the transmit
//! engine.

use vstd::prelude::*;
use crate::error::RmtError;
use crate::item::Item;
use crate::pulse::Pulse;

verus! {

/// Storage that holds a signal as the records the transmit engine reads.
pub trait Signal {
    /// The records of the signal, in the order in which they are sent.
    spec fn items(&self) -> Seq<Item>;

    /// The records of the signal, without copying them.
    fn as_slice(&self) -> (s: &[Item])
        ensures
            s@ == self.items(),
    ;
}

/// A signal of exactly `N` records, for signals whose length is known ahead
/// of time. Each record is set as a pair of pulses.
pub struct StackPairedSignal<const N: usize>([Item; N]);

impl<const N: usize> Clone for StackPairedSignal<N> {
    fn clone(&self) -> (copy: Self)
        ensures
            copy@ == self@,
    {
        StackPairedSignal(self.0)
    }
}

impl<const N: usize> View for StackPairedSignal<N> {
    type V = Seq<Item>;

    closed spec fn view(&self) -> Seq<Item> {
        self.0@
    }
}

impl<const N: usize> StackPairedSignal<N> {
    /// A signal of `N` records with all bits clear.
    pub fn new() -> (signal: Self)
        ensures
            signal@.len() == N,
            forall|i: int| 0 <= i < N ==> (#[trigger] signal@[i]).val == 0,
    {
        StackPairedSignal([Item::zero(); N])
    }

    /// Overwrites the record at `index` with the two pulses of `pair`.
    pub fn set(&mut self, index: usize, pair: &(Pulse, Pulse)) -> (r: Result<(), RmtError>)
        ensures
            final(self)@.len() == N,
            index < N ==> r is Ok && final(self)@ == old(self)@.update(
                index as int,
                Item { val: Item::spec_pack(pair.0, pair.1) as u32 },
            ),
            index >= N ==> r == Err::<(), RmtError>(RmtError::IndexOutOfRange) && final(self)@
                == old(self)@,
    {
        if index >= N {
            return Err(RmtError::IndexOutOfRange);
        }
        let item = Item::new(&pair.0, &pair.1);
        self.0[index] = item;
        Ok(())
    }
}

impl<const N: usize> Signal for StackPairedSignal<N> {
    open spec fn items(&self) -> Seq<Item> {
        self@
    }

    fn as_slice(&self) -> (s: &[Item]) {
        self.0.as_slice()
    }
}

/// The sixteen bits of the pulse at `k` in `pulses`, and zero beyond its end.
pub open spec fn half_word_at(pulses: Seq<Pulse>, k: int) -> nat {
    if 0 <= k < pulses.len() {
        pulses[k].spec_half_word()
    } else {
        0
    }
}

/// The records that hold `pulses` two by two, in order. Where the number of
/// pulses is odd, the second half of the last record is clear.
pub open spec fn pack_pulses(pulses: Seq<Pulse>) -> Seq<Item> {
    Seq::new(
        ((pulses.len() + 1) / 2) as nat,
        |i: int|
            Item {
                val: (half_word_at(pulses, 2 * i) + 65536 * half_word_at(pulses, 2 * i + 1)) as u32,
            },
    )
}

/// Packing pulses of the domain keeps them all, in order: there is a record
/// for every two pulses, the record at `i` decodes to the pulses at `2 * i`
/// and `2 * i + 1`, and where there is no second pulse for the last record,
/// its second half is clear.
pub proof fn lemma_pack_pulses_keeps_pulses(pulses: Seq<Pulse>, i: int)
    requires
        forall|k: int| 0 <= k < pulses.len() ==> (#[trigger] pulses[k]).in_domain(),
        0 <= i < (pulses.len() + 1) / 2,
    ensures
        pack_pulses(pulses).len() == (pulses.len() + 1) / 2,
        pack_pulses(pulses)[i].spec_first() == pulses[2 * i],
        2 * i + 1 < pulses.len() ==> pack_pulses(pulses)[i].spec_second() == pulses[2 * i + 1],
        2 * i + 1 == pulses.len() ==> pack_pulses(pulses)[i].spec_high_half() == 0,
{
    let first = pulses[2 * i];
    crate::pulse::lemma_half_word_round_trip(first);
    if 2 * i + 1 < pulses.len() {
        let second = pulses[2 * i + 1];
        crate::item::lemma_pack_round_trip(first, second);
    }
}

/// A single pulse is packed into one record, which holds it in its first
/// half and nothing in its second.
pub proof fn lemma_pack_single_pulse(pulse: Pulse)
    requires
        pulse.in_domain(),
    ensures
        pack_pulses(seq![pulse]) == seq![Item { val: pulse.spec_half_word() as u32 }],
        pack_pulses(seq![pulse])[0].spec_first() == pulse,
        pack_pulses(seq![pulse])[0].spec_high_half() == 0,
{
    crate::pulse::lemma_half_word_round_trip(pulse);
    assert(pack_pulses(seq![pulse]) =~= seq![Item { val: pulse.spec_half_word() as u32 }]);
}

/// The pulse at `k` among those that `items` hold two by two.
pub open spec fn pulse_at(items: Seq<Item>, k: int) -> Pulse {
    if k % 2 == 0 {
        items[k / 2].spec_first()
    } else {
        items[k / 2].spec_second()
    }
}

/// Whether records and flag fit together: where the next pulse fills a second
/// half, there is a last record and its second half is clear.
spec fn fits(items: Seq<Item>, next_item_is_new: bool) -> bool {
    !next_item_is_new ==> items.len() > 0 && items.last().spec_high_half() == 0
}

/// The pulses that `items` hold: two for each record, but one for the last
/// where the next pulse fills its second half.
spec fn pulses_of(items: Seq<Item>, next_item_is_new: bool) -> Seq<Pulse> {
    Seq::new(
        (2 * items.len() - if next_item_is_new {
            0int
        } else {
            1int
        }) as nat,
        |k: int| pulse_at(items, k),
    )
}

/// A record is the packing of the two pulses it decodes to.
proof fn lemma_item_is_packed(item: Item)
    ensures
        item.spec_first().spec_half_word() == item.spec_low_half(),
        item.spec_second().spec_half_word() == item.spec_high_half(),
        item.val == item.spec_low_half() + 65536 * item.spec_high_half(),
{
    crate::item::lemma_unpack_round_trip(item);
}

/// Records that fit their flag are the packing of the pulses they hold.
proof fn lemma_items_pack_pulses(items: Seq<Item>, next_item_is_new: bool)
    requires
        fits(items, next_item_is_new),
    ensures
        items == pack_pulses(pulses_of(items, next_item_is_new)),
        !next_item_is_new == (pulses_of(items, next_item_is_new).len() % 2 == 1),
{
    let ps = pulses_of(items, next_item_is_new);
    let packed = pack_pulses(ps);
    assert(packed.len() == items.len());
    assert forall|i: int| 0 <= i < items.len() implies items[i] == packed[i] by {
        let item = items[i];
        lemma_item_is_packed(item);
        assert(ps[2 * i] == pulse_at(items, 2 * i));
        assert(half_word_at(ps, 2 * i) == item.spec_low_half());
        if 2 * i + 1 < ps.len() {
            assert(ps[2 * i + 1] == pulse_at(items, 2 * i + 1));
            assert(half_word_at(ps, 2 * i + 1) == item.spec_high_half());
        } else {
            assert(i == items.len() - 1);
            assert(half_word_at(ps, 2 * i + 1) == 0);
            assert(item.spec_high_half() == 0);
        }
        assert(packed[i].val == item.val);
    }
    assert(items =~= packed);
}

/// A growable signal, for signals that are built pulse by pulse.
pub struct VecSignal {
    items: Vec<Item>,
    // A record holds two pulses: whether the next pulse starts a new record,
    // or fills the second half of the last one.
    next_item_is_new: bool,
}

impl View for VecSignal {
    type V = Seq<Item>;

    closed spec fn view(&self) -> Seq<Item> {
        self.items@
    }
}

impl VecSignal {
    #[verifier::type_invariant]
    spec fn well_formed(self) -> bool {
        fits(self.items@, self.next_item_is_new)
    }

    /// Whether the last record holds one pulse only, so that the next pulse
    /// goes to its second half.
    pub closed spec fn half_filled(&self) -> bool {
        !self.next_item_is_new
    }

    /// The pulses added since the signal was new or last cleared.
    pub closed spec fn pulses(&self) -> Seq<Pulse> {
        pulses_of(self.items@, self.next_item_is_new)
    }

    /// An empty signal.
    pub fn new() -> (signal: Self)
        ensures
            signal@ == Seq::<Item>::empty(),
            signal.pulses() == Seq::<Pulse>::empty(),
            !signal.half_filled(),
    {
        VecSignal { items: Vec::new(), next_item_is_new: true }
    }

    /// Appends `pulses` in order. Each pulse either starts a new record or
    /// fills the second half of the last one.
    pub fn add(&mut self, pulses: Vec<Pulse>) -> (r: Result<(), RmtError>)
        ensures
            r is Ok,
            final(self).pulses() == old(self).pulses() + pulses@,
            final(self)@ == pack_pulses(final(self).pulses()),
            final(self).half_filled() == (final(self).pulses().len() % 2 == 1),
    {
        proof {
            use_type_invariant(&*self);
        }
        // The records leave the signal while they grow, and the flag with them.
        let mut next_item_is_new = self.next_item_is_new;
        let mut items: Vec<Item> = Vec::new();
        self.next_item_is_new = true;
        core::mem::swap(&mut self.items, &mut items);

        let n = pulses.len();
        let mut i: usize = 0;
        while i < n
            invariant
                n == pulses.len(),
                i <= n,
                fits(items@, next_item_is_new),
                pulses_of(items@, next_item_is_new) == old(self).pulses() + pulses@.take(i as int),
            decreases n - i,
        {
            let pulse = pulses[i];
            proof {
                use_type_invariant(&pulse.ticks);
                crate::pulse::lemma_half_word_round_trip(pulse);
            }
            let ghost before = pulses_of(items@, next_item_is_new);
            if next_item_is_new {
                items.push(Item::from_first(&pulse));
            } else {
                let last = items.len() - 1;
                let mut item = items[last];
                item.set_second(&pulse);
                items.set(last, item);
            }
            next_item_is_new = !next_item_is_new;
            proof {
                assert(pulses@.take(i + 1) == pulses@.take(i as int).push(pulse));
                assert(pulses_of(items@, next_item_is_new) == before.push(pulse));
            }
            i = i + 1;
        }
        proof {
            assert(pulses@.take(n as int) == pulses@);
            lemma_items_pack_pulses(items@, next_item_is_new);
        }
        core::mem::swap(&mut self.items, &mut items);
        self.next_item_is_new = next_item_is_new;
        Ok(())
    }

    /// Removes all pulses: the next pulse added starts the first record.
    pub fn clear(&mut self)
        ensures
            final(self)@ == Seq::<Item>::empty(),
            final(self).pulses() == Seq::<Pulse>::empty(),
            !final(self).half_filled(),
    {
        self.next_item_is_new = true;
        let mut items: Vec<Item> = Vec::new();
        core::mem::swap(&mut self.items, &mut items);
    }
}

impl Clone for VecSignal {
    fn clone(&self) -> (copy: Self)
        ensures
            copy@ == self@,
            copy.pulses() == self.pulses(),
            copy.half_filled() == self.half_filled(),
    {
        proof {
            use_type_invariant(self);
        }
        let items = self.items.clone();
        assert(items@ =~= self.items@);
        VecSignal { items, next_item_is_new: self.next_item_is_new }
    }
}

impl Signal for VecSignal {
    open spec fn items(&self) -> Seq<Item> {
        self@
    }

    fn as_slice(&self) -> (s: &[Item])
        ensures
            s@ == pack_pulses(self.pulses()),
    {
        proof {
            use_type_invariant(self);
            lemma_items_pack_pulses(self.items@, self.next_item_is_new);
        }
        self.items.as_slice()
    }
}

} // verus!
