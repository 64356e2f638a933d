//! Output pins, as far as a writer needs them.

use vstd::prelude::*;

verus! {

/// A pin that can drive an output. A writer needs its number only.
pub trait OutputPin {
    /// The number of the pin, which never changes.
    spec fn spec_pin(&self) -> i32;

    /// The number of the pin.
    fn pin(&self) -> (number: i32)
        ensures
            number == self.spec_pin(),
    ;
}

/// An output pin whose number is known at run time only.
#[derive(Debug, PartialEq, Eq)]
pub struct GpioPin {
    number: i32,
}

impl GpioPin {
    /// The output pin with the given number. There must be one handle for
    /// each physical pin: nothing checks that.
    pub fn new(number: i32) -> (pin: GpioPin)
        ensures
            pin.spec_pin() == number,
    {
        GpioPin { number }
    }
}

impl OutputPin for GpioPin {
    closed spec fn spec_pin(&self) -> i32 {
        self.number
    }

    fn pin(&self) -> (number: i32) {
        self.number
    }
}

} // verus!
