//! Units used by the pulse-train driver.

use vstd::prelude::*;
use vstd::std_specs::convert::FromSpecImpl;

verus! {

/// A frequency in hertz.
#[derive(Clone, Copy, Debug, PartialEq, Eq, Structural)]
pub struct Hertz(pub u32);

impl From<u32> for Hertz {
    fn from(hz: u32) -> (frequency: Hertz) {
        Hertz(hz)
    }
}

impl FromSpecImpl<u32> for Hertz {
    open spec fn obeys_from_spec() -> bool {
        true
    }

    open spec fn from_spec(hz: u32) -> Hertz {
        Hertz(hz)
    }
}

impl From<Hertz> for u32 {
    fn from(frequency: Hertz) -> (hz: u32) {
        frequency.0
    }
}

impl FromSpecImpl<Hertz> for u32 {
    open spec fn obeys_from_spec() -> bool {
        true
    }

    open spec fn from_spec(frequency: Hertz) -> u32 {
        frequency.0
    }
}

} // verus!
