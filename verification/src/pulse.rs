//! Pulses: a logic level held for a number of ticks.

use core::time::Duration;
use vstd::prelude::*;
use crate::error::RmtError;
use crate::units::Hertz;

verus! {

/// The largest tick count a pulse can hold: fifteen bits.
pub const MAX_TICKS: u16 = 32767;

/// Nanoseconds in one second.
pub const NANOS_PER_SECOND: u128 = 1_000_000_000;

/// The whole ticks that pass in `nanos` nanoseconds on a counter that runs at
/// `ticks_hz` ticks per second: a part of a tick is dropped.
pub open spec fn spec_duration_ticks(ticks_hz: Hertz, nanos: nat) -> nat {
    (nanos * (ticks_hz.0 as nat)) / (NANOS_PER_SECOND as nat)
}

/// What converting `nanos` nanoseconds to a tick count gives: the whole ticks
/// where they lie in the domain, `Overflow` where they do not fit in sixteen
/// bits, `InvalidArgument` where they fit but exceed [`MAX_TICKS`].
pub open spec fn spec_ticks_of_nanos(ticks_hz: Hertz, nanos: nat) -> Result<nat, RmtError> {
    let ticks = spec_duration_ticks(ticks_hz, nanos);
    if ticks > u16::MAX {
        Err(RmtError::Overflow)
    } else if ticks > MAX_TICKS {
        Err(RmtError::InvalidArgument)
    } else {
        Ok(ticks)
    }
}

/// The total number of nanoseconds that a `Duration` holds.
pub uninterp spec fn duration_nanos(d: Duration) -> u128;

/// `Duration::as_nanos` of std, which returns the total number of nanoseconds
/// that the duration holds. Nothing is claimed of the number but that it
/// depends on the duration alone.
#[verifier::external_body]
fn duration_as_nanos(d: Duration) -> (n: u128)
    ensures
        n == duration_nanos(d),
{
    d.as_nanos()
}

/// The logic level of an output.
#[derive(Clone, Copy, Debug, PartialEq, Eq, Structural)]
pub enum PinState {
    Low,
    High,
}

impl PinState {
    /// The level as the bit the hardware stores: 0 for low, 1 for high.
    pub open spec fn spec_bit(self) -> nat {
        match self {
            PinState::Low => 0,
            PinState::High => 1,
        }
    }

    /// The level as the bit the hardware stores.
    pub fn bit(self) -> (b: u32)
        ensures
            b == self.spec_bit(),
    {
        match self {
            PinState::Low => 0,
            PinState::High => 1,
        }
    }
}

/// A duration in ticks, at most [`MAX_TICKS`].
#[derive(Clone, Copy, Debug, PartialEq, Eq, Structural)]
pub struct PulseTicks(u16);

impl View for PulseTicks {
    type V = nat;

    closed spec fn view(&self) -> nat {
        self.0 as nat
    }
}

impl PulseTicks {
    /// Whether the number of ticks lies in the domain. Every tick count that
    /// executable code can hold does.
    #[verifier::type_invariant]
    pub open spec fn in_domain(self) -> bool {
        self@ <= MAX_TICKS
    }

    /// A tick count, which must not exceed [`MAX_TICKS`].
    pub fn new(v: u16) -> (r: Result<PulseTicks, RmtError>)
        ensures
            v <= MAX_TICKS ==> r is Ok && r->Ok_0@ == v,
            v > MAX_TICKS ==> r == Err::<PulseTicks, RmtError>(RmtError::InvalidArgument),
    {
        if v > MAX_TICKS {
            Err(RmtError::InvalidArgument)
        } else {
            Ok(PulseTicks(v))
        }
    }

    /// The whole ticks that pass in `nanos` nanoseconds at `ticks_hz` ticks
    /// per second.
    pub fn new_with_nanos(ticks_hz: Hertz, nanos: u128) -> (r: Result<PulseTicks, RmtError>)
        ensures
            match spec_ticks_of_nanos(ticks_hz, nanos as nat) {
                Ok(ticks) => r is Ok && r->Ok_0@ == ticks,
                Err(e) => r == Err::<PulseTicks, RmtError>(e),
            },
    {
        match nanos.checked_mul(ticks_hz.0 as u128) {
            None => Err(RmtError::Overflow),
            Some(product) => {
                let ticks: u128 = product / NANOS_PER_SECOND;
                if ticks > 65535 {
                    Err(RmtError::Overflow)
                } else {
                    PulseTicks::new(ticks as u16)
                }
            },
        }
    }

    /// Converts a `Duration` to ticks at `ticks_hz` ticks per second.
    pub fn new_with_duration(ticks_hz: Hertz, duration: Duration) -> (r: Result<
        PulseTicks,
        RmtError,
    >)
        ensures
            match spec_ticks_of_nanos(ticks_hz, duration_nanos(duration) as nat) {
                Ok(ticks) => r is Ok && r->Ok_0@ == ticks,
                Err(e) => r == Err::<PulseTicks, RmtError>(e),
            },
    {
        PulseTicks::new_with_nanos(ticks_hz, duration_as_nanos(duration))
    }

    /// The largest tick count.
    pub fn max() -> (t: PulseTicks)
        ensures
            t@ == MAX_TICKS,
    {
        PulseTicks(MAX_TICKS)
    }

    /// The number of ticks.
    pub fn ticks(&self) -> (v: u16)
        ensures
            v == self@,
            v <= MAX_TICKS,
    {
        proof {
            use_type_invariant(self);
        }
        self.0
    }
}

/// A logic level held for a number of ticks.
#[derive(Clone, Copy, Debug, PartialEq, Eq, Structural)]
pub struct Pulse {
    pub ticks: PulseTicks,
    pub pin_state: PinState,
}

impl Pulse {
    pub fn new(pin_state: PinState, ticks: PulseTicks) -> (p: Pulse)
        ensures
            p.pin_state == pin_state,
            p.ticks == ticks,
    {
        Pulse { pin_state, ticks }
    }

    /// A pulse at `pin_state` that lasts `nanos` nanoseconds at `ticks_hz`
    /// ticks per second.
    pub fn new_with_nanos(ticks_hz: Hertz, pin_state: PinState, nanos: u128) -> (r: Result<
        Pulse,
        RmtError,
    >)
        ensures
            match spec_ticks_of_nanos(ticks_hz, nanos as nat) {
                Ok(ticks) => r is Ok && r->Ok_0.ticks@ == ticks && r->Ok_0.pin_state == pin_state,
                Err(e) => r == Err::<Pulse, RmtError>(e),
            },
    {
        match PulseTicks::new_with_nanos(ticks_hz, nanos) {
            Ok(ticks) => Ok(Pulse::new(pin_state, ticks)),
            Err(e) => Err(e),
        }
    }

    /// A pulse at `pin_state` that lasts `duration` at `ticks_hz` ticks per
    /// second, the frequency that the writer's channel counts at.
    pub fn new_with_duration(ticks_hz: Hertz, pin_state: PinState, duration: Duration) -> (r:
        Result<Pulse, RmtError>)
        ensures
            match spec_ticks_of_nanos(ticks_hz, duration_nanos(duration) as nat) {
                Ok(ticks) => r is Ok && r->Ok_0.ticks@ == ticks && r->Ok_0.pin_state == pin_state,
                Err(e) => r == Err::<Pulse, RmtError>(e),
            },
    {
        match PulseTicks::new_with_duration(ticks_hz, duration) {
            Ok(ticks) => Ok(Pulse::new(pin_state, ticks)),
            Err(e) => Err(e),
        }
    }

    /// Whether the tick count lies in the domain. Every pulse that executable
    /// code can hold does; a pulse that only ghost code speaks of need not.
    pub open spec fn in_domain(self) -> bool {
        self.ticks.in_domain()
    }

    /// The sixteen bits that stand for the pulse in a hardware record: the
    /// tick count in the low fifteen, the level above them.
    pub open spec fn spec_half_word(self) -> nat {
        self.ticks@ + 32768 * self.pin_state.spec_bit()
    }

    /// The pulse that sixteen bits stand for.
    pub closed spec fn spec_from_half_word(w: nat) -> Pulse {
        Pulse {
            ticks: PulseTicks((w % 32768) as u16),
            pin_state: if (w / 32768) % 2 == 1 {
                PinState::High
            } else {
                PinState::Low
            },
        }
    }

    /// The sixteen bits that stand for the pulse in a hardware record.
    pub fn half_word(&self) -> (w: u16)
        ensures
            w == self.spec_half_word(),
    {
        let t: u16 = self.ticks.ticks();
        let b: u16 = self.pin_state.bit() as u16;
        assert(t | (b << 15) == t + 32768 * b) by (bit_vector)
            requires
                t <= 32767,
                b <= 1,
        ;
        t | (b << 15)
    }

    /// The pulse that sixteen bits stand for.
    pub fn from_half_word(w: u16) -> (p: Pulse)
        ensures
            p == Pulse::spec_from_half_word(w as nat),
            p.spec_half_word() == w,
    {
        let t: u16 = w & 0x7fff;
        let b: u16 = w >> 15;
        assert(t == w % 32768 && b == (w / 32768) % 2 && t + 32768 * b == w && t <= 32767) by (bit_vector)
            requires
                t == w & 0x7fff,
                b == w >> 15,
        ;
        Pulse {
            ticks: PulseTicks(t),
            pin_state: if b == 1 {
                PinState::High
            } else {
                PinState::Low
            },
        }
    }
}

/// A duration is converted by dropping the part of a tick: the ticks it gives
/// take no longer than the duration, and one tick more would.
pub proof fn lemma_duration_ticks_is_floor(ticks_hz: Hertz, nanos: nat)
    ensures
        spec_duration_ticks(ticks_hz, nanos) * NANOS_PER_SECOND <= nanos * ticks_hz.0,
        nanos * ticks_hz.0 < (spec_duration_ticks(ticks_hz, nanos) + 1) * NANOS_PER_SECOND,
{
    let product = nanos * (ticks_hz.0 as nat);
    assert(product == (product / 1_000_000_000) * 1_000_000_000 + product % 1_000_000_000);
    assert(nanos * ticks_hz.0 == product);
}

/// A longer duration never gives fewer ticks.
pub proof fn lemma_duration_ticks_is_monotonic(ticks_hz: Hertz, shorter: nat, longer: nat)
    requires
        shorter <= longer,
    ensures
        spec_duration_ticks(ticks_hz, shorter) <= spec_duration_ticks(ticks_hz, longer),
{
    let hz = ticks_hz.0 as nat;
    assert(shorter * hz <= longer * hz) by (nonlinear_arith)
        requires
            shorter <= longer,
    ;
}

/// Two tick counts with the same number of ticks are the same tick count.
pub proof fn lemma_ticks_view_injective(a: PulseTicks, b: PulseTicks)
    requires
        a@ == b@,
    ensures
        a == b,
{
}

/// Encoding a pulse of the domain in sixteen bits loses nothing: decoding
/// gives the pulse back.
pub proof fn lemma_half_word_round_trip(p: Pulse)
    requires
        p.in_domain(),
    ensures
        p.spec_half_word() <= 0xffff,
        Pulse::spec_from_half_word(p.spec_half_word()) == p,
{
}

/// Every sixteen bits stand for a pulse of the domain, and encoding that
/// pulse gives the same bits back.
pub proof fn lemma_from_half_word(w: nat)
    requires
        w <= 0xffff,
    ensures
        Pulse::spec_from_half_word(w).in_domain(),
        Pulse::spec_from_half_word(w).spec_half_word() == w,
{
}

} // verus!
