//! The interface to the transmit engine: what a writer asks of it, and what
//! it answers.

use vstd::prelude::*;
use crate::units::Hertz;

verus! {

/// The status with which the engine reports success.
pub const STATUS_OK: i32 = 0;

/// The flag with which a channel keeps working while the bus clock scales.
pub const CHANNEL_FLAGS_AWARE_DFS: u32 = 1;

/// The record that programs a channel for transmission.
#[derive(Clone, Copy, Debug, PartialEq, Eq, Structural)]
pub struct TxConfig {
    pub channel: u32,
    pub gpio_num: i32,
    pub clk_div: u8,
    pub mem_block_num: u8,
    pub flags: u32,
    pub carrier_en: bool,
    pub carrier_freq_hz: u32,
    pub carrier_level: u32,
    pub carrier_duty_percent: u8,
    pub idle_output_en: bool,
    pub idle_level: u32,
    pub loop_en: bool,
    pub loop_count: u32,
}

/// One call to the transmit engine. The records of `WriteItems` are those
/// that the writer holds.
#[derive(Clone, Copy, Debug, PartialEq, Eq, Structural)]
pub enum EngineCall {
    /// Program the channel with the record.
    Program(TxConfig),
    /// Install the driver of the channel.
    InstallDriver { channel: u32 },
    /// Send the records that the writer holds, and wait for the last of
    /// them where `blocking` is set.
    WriteItems { channel: u32, blocking: bool },
    /// Ask for the frequency at which the channel counts ticks.
    QueryTickFrequency { channel: u32 },
    /// Stop the transmission.
    Stop { channel: u32 },
    /// Remove the driver of the channel.
    Uninstall { channel: u32 },
}

/// What the engine answers to a call.
#[derive(Clone, Copy, Debug, PartialEq, Eq, Structural)]
pub enum EngineReply {
    /// The status of any call but `QueryTickFrequency`.
    Status(i32),
    /// The status of `QueryTickFrequency`, and the frequency it wrote.
    TickFrequency { status: i32, ticks_hz: u32 },
}

impl EngineReply {
    /// The status that the reply carries.
    pub open spec fn spec_status(self) -> i32 {
        match self {
            EngineReply::Status(status) => status,
            EngineReply::TickFrequency { status, .. } => status,
        }
    }

    /// The status that the reply carries.
    pub fn status(&self) -> (status: i32)
        ensures
            status == self.spec_status(),
    {
        match self {
            EngineReply::Status(status) => *status,
            EngineReply::TickFrequency { status, .. } => *status,
        }
    }
}

/// What an operation of the writer achieved.
#[derive(Clone, Copy, Debug, PartialEq, Eq, Structural)]
pub enum Completion {
    /// The channel is programmed and its driver installed.
    Ready,
    /// The engine took the records and sends them in the background.
    Started,
    /// The engine sent the records.
    Sent,
    /// The frequency at which the channel counts ticks.
    TickFrequency(Hertz),
    /// The transmission, if there was one, is stopped.
    Stopped,
    /// The channel is torn down.
    Released,
}

} // verus!
