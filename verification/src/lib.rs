//! Pulse-train encoding and channel lifecycle for a remote-control transmit
//! peripheral.
//!
//! A signal is a sequence of pulses, each a logic level held for a number of
//! ticks. The hardware reads pulses two by two, packed into records of
//! thirty-two bits: [`StackPairedSignal`] and [`VecSignal`] hold a signal in
//! that form. A [`Writer`] owns an output pin and a transmit channel and
//! decides which calls the transmit engine gets, and what its replies mean.

pub mod chip;
pub mod config;
pub mod engine;
pub mod error;
pub mod gpio;
pub mod item;
pub mod pulse;
pub mod signal;
pub mod units;
pub mod writer;

pub use chip::{
    HwChannel, Peripheral, CHANNEL0, CHANNEL1, CHANNEL2, CHANNEL3, CHANNEL4, CHANNEL5, CHANNEL6,
    CHANNEL7,
};
pub use error::RmtError;
pub use item::Item;
pub use pulse::{PinState, Pulse, PulseTicks};
pub use signal::{Signal, StackPairedSignal, VecSignal};
pub use writer::Writer;
