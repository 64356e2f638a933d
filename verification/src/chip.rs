//! The transmit channels of the peripheral, each as a type of its own.

use vstd::prelude::*;

verus! {

/// The number of transmit channels.
pub const CHANNEL_COUNT: u32 = 8;

/// A transmit channel of the peripheral.
pub trait HwChannel {
    /// The number of the channel.
    spec fn spec_channel() -> u32;

    /// The number of the channel.
    fn channel() -> (id: u32)
        ensures
            id == Self::spec_channel(),
            id < CHANNEL_COUNT,
    ;
}

#[allow(non_camel_case_types)]
pub struct CHANNEL0 {
    _private: (),
}

impl HwChannel for CHANNEL0 {
    open spec fn spec_channel() -> u32 {
        0
    }

    fn channel() -> (id: u32) {
        0
    }
}

#[allow(non_camel_case_types)]
pub struct CHANNEL1 {
    _private: (),
}

impl HwChannel for CHANNEL1 {
    open spec fn spec_channel() -> u32 {
        1
    }

    fn channel() -> (id: u32) {
        1
    }
}

#[allow(non_camel_case_types)]
pub struct CHANNEL2 {
    _private: (),
}

impl HwChannel for CHANNEL2 {
    open spec fn spec_channel() -> u32 {
        2
    }

    fn channel() -> (id: u32) {
        2
    }
}

#[allow(non_camel_case_types)]
pub struct CHANNEL3 {
    _private: (),
}

impl HwChannel for CHANNEL3 {
    open spec fn spec_channel() -> u32 {
        3
    }

    fn channel() -> (id: u32) {
        3
    }
}

#[allow(non_camel_case_types)]
pub struct CHANNEL4 {
    _private: (),
}

impl HwChannel for CHANNEL4 {
    open spec fn spec_channel() -> u32 {
        4
    }

    fn channel() -> (id: u32) {
        4
    }
}

#[allow(non_camel_case_types)]
pub struct CHANNEL5 {
    _private: (),
}

impl HwChannel for CHANNEL5 {
    open spec fn spec_channel() -> u32 {
        5
    }

    fn channel() -> (id: u32) {
        5
    }
}

#[allow(non_camel_case_types)]
pub struct CHANNEL6 {
    _private: (),
}

impl HwChannel for CHANNEL6 {
    open spec fn spec_channel() -> u32 {
        6
    }

    fn channel() -> (id: u32) {
        6
    }
}

#[allow(non_camel_case_types)]
pub struct CHANNEL7 {
    _private: (),
}

impl HwChannel for CHANNEL7 {
    open spec fn spec_channel() -> u32 {
        7
    }

    fn channel() -> (id: u32) {
        7
    }
}

/// The transmit channels of the peripheral: one handle for each.
pub struct Peripheral {
    pub channel0: CHANNEL0,
    pub channel1: CHANNEL1,
    pub channel2: CHANNEL2,
    pub channel3: CHANNEL3,
    pub channel4: CHANNEL4,
    pub channel5: CHANNEL5,
    pub channel6: CHANNEL6,
    pub channel7: CHANNEL7,
}

impl Peripheral {
    /// The handles of all channels. A handle cannot be made in any other
    /// way, and it stands for the exclusive use of its channel: call this
    /// once, where the program takes its peripherals. Nothing checks that.
    pub fn new() -> (peripheral: Self) {
        Peripheral {
            channel0: CHANNEL0 { _private: () },
            channel1: CHANNEL1 { _private: () },
            channel2: CHANNEL2 { _private: () },
            channel3: CHANNEL3 { _private: () },
            channel4: CHANNEL4 { _private: () },
            channel5: CHANNEL5 { _private: () },
            channel6: CHANNEL6 { _private: () },
            channel7: CHANNEL7 { _private: () },
        }
    }
}

} // verus!
