//! The configuration of a writer.

use vstd::prelude::*;
use crate::engine::{TxConfig, CHANNEL_FLAGS_AWARE_DFS};
use crate::error::RmtError;
use crate::pulse::PinState;
use crate::units::Hertz;

verus! {

/// The largest duty cycle, in percent.
pub const MAX_DUTY_PERCENT: u8 = 100;

/// A duty cycle in percent, at most 100.
#[derive(Clone, Copy, Debug, PartialEq, Eq, Structural)]
pub struct DutyPercent(pub(crate) u8);

impl View for DutyPercent {
    type V = nat;

    closed spec fn view(&self) -> nat {
        self.0 as nat
    }
}

impl DutyPercent {
    /// Whether the duty cycle lies in the domain. Every duty cycle that
    /// executable code can hold does.
    #[verifier::type_invariant]
    pub open spec fn in_domain(self) -> bool {
        self@ <= MAX_DUTY_PERCENT
    }

    /// A duty cycle, which must not exceed 100 percent.
    pub fn new(v: u8) -> (r: Result<DutyPercent, RmtError>)
        ensures
            v <= MAX_DUTY_PERCENT ==> r is Ok && r->Ok_0@ == v,
            v > MAX_DUTY_PERCENT ==> r == Err::<DutyPercent, RmtError>(RmtError::InvalidArgument),
    {
        if v > MAX_DUTY_PERCENT {
            Err(RmtError::InvalidArgument)
        } else {
            Ok(DutyPercent(v))
        }
    }

    /// The duty cycle in percent.
    pub fn percent(&self) -> (v: u8)
        ensures
            v == self@,
            v <= MAX_DUTY_PERCENT,
    {
        proof {
            use_type_invariant(self);
        }
        self.0
    }
}

/// Two duty cycles with the same percentage are the same duty cycle.
pub proof fn lemma_duty_view_injective(a: DutyPercent, b: DutyPercent)
    requires
        a@ == b@,
    ensures
        a == b,
{
}

/// The carrier that modulates the high level of a pulse.
#[derive(Clone, Copy, Debug, PartialEq, Eq, Structural)]
pub struct CarrierConfig {
    /// The frequency of the carrier.
    pub frequency: Hertz,
    /// The level of the output on which the carrier is applied.
    pub carrier_level: PinState,
    /// The level of the output while the carrier idles.
    pub idle_level: PinState,
    /// The duty cycle of the carrier.
    pub duty_percent: DutyPercent,
}

impl Default for CarrierConfig {
    fn default() -> (c: Self)
        ensures
            c.frequency == Hertz(38_000),
            c.carrier_level == PinState::High,
            c.idle_level == PinState::Low,
            c.duty_percent@ == 33,
    {
        CarrierConfig {
            frequency: Hertz(38_000),
            carrier_level: PinState::High,
            idle_level: PinState::Low,
            duty_percent: DutyPercent(33),
        }
    }
}

impl CarrierConfig {
    /// The default carrier: 38 kHz on the high level, a third of the time.
    pub fn new() -> (c: Self)
        ensures
            c.frequency == Hertz(38_000),
            c.carrier_level == PinState::High,
            c.idle_level == PinState::Low,
            c.duty_percent@ == 33,
    {
        Self::default()
    }

    pub fn frequency(self, hz: Hertz) -> (c: Self)
        ensures
            c == (CarrierConfig { frequency: hz, ..self }),
    {
        let mut c = self;
        c.frequency = hz;
        c
    }

    pub fn carrier_level(self, state: PinState) -> (c: Self)
        ensures
            c == (CarrierConfig { carrier_level: state, ..self }),
    {
        let mut c = self;
        c.carrier_level = state;
        c
    }

    pub fn idle_level(self, state: PinState) -> (c: Self)
        ensures
            c == (CarrierConfig { idle_level: state, ..self }),
    {
        let mut c = self;
        c.idle_level = state;
        c
    }

    pub fn duty_percent(self, duty: DutyPercent) -> (c: Self)
        ensures
            c == (CarrierConfig { duty_percent: duty, ..self }),
    {
        let mut c = self;
        c.duty_percent = duty;
        c
    }
}

/// Whether a transmission repeats.
#[derive(Clone, Copy, Debug, PartialEq, Eq, Structural)]
pub enum Loop {
    /// The signal is sent once.
    Off,
    /// The signal is repeated the given number of times. The hardware
    /// documents a largest count of 1023; a larger one is handed on as it is.
    Count(u32),
}

/// The parameters with which a writer programs its channel.
#[derive(Clone, Copy, Debug, PartialEq, Eq, Structural)]
pub struct WriterConfig {
    /// The divider of the source clock; it sets the length of a tick.
    pub clock_divider: u8,
    /// The number of memory blocks that the channel owns.
    pub mem_block_num: u8,
    /// The carrier, if the output is modulated.
    pub carrier: Option<CarrierConfig>,
    /// Whether the transmission repeats.
    pub looping: Loop,
    /// The level of the output while nothing is sent, if the output is
    /// driven then.
    pub idle: Option<PinState>,
    /// Whether the channel keeps working while the bus clock scales.
    pub aware_dfs: bool,
}

impl Default for WriterConfig {
    fn default() -> (c: Self)
        ensures
            c == WriterConfig::spec_default(),
    {
        WriterConfig {
            aware_dfs: false,
            mem_block_num: 1,
            clock_divider: 80,
            looping: Loop::Off,
            carrier: None,
            idle: Some(PinState::Low),
        }
    }
}

impl WriterConfig {
    /// The default configuration.
    pub open spec fn spec_default() -> WriterConfig {
        WriterConfig {
            aware_dfs: false,
            mem_block_num: 1,
            clock_divider: 80,
            looping: Loop::Off,
            carrier: None,
            idle: Some(PinState::Low),
        }
    }

    /// The default configuration: a divider of 80, one memory block, no
    /// carrier, no repeat, and a low output while idle.
    pub fn new() -> (c: Self)
        ensures
            c == WriterConfig::spec_default(),
    {
        Self::default()
    }

    /// Lets the channel work while the bus clock scales: it then counts on a
    /// clock that does not change.
    pub fn aware_dfs(self, enable: bool) -> (c: Self)
        ensures
            c == (WriterConfig { aware_dfs: enable, ..self }),
    {
        let mut c = self;
        c.aware_dfs = enable;
        c
    }

    pub fn mem_block_num(self, mem_block_num: u8) -> (c: Self)
        ensures
            c == (WriterConfig { mem_block_num, ..self }),
    {
        let mut c = self;
        c.mem_block_num = mem_block_num;
        c
    }

    pub fn clock_divider(self, divider: u8) -> (c: Self)
        ensures
            c == (WriterConfig { clock_divider: divider, ..self }),
    {
        let mut c = self;
        c.clock_divider = divider;
        c
    }

    pub fn looping(self, looping: Loop) -> (c: Self)
        ensures
            c == (WriterConfig { looping, ..self }),
    {
        let mut c = self;
        c.looping = looping;
        c
    }

    pub fn carrier(self, carrier: Option<CarrierConfig>) -> (c: Self)
        ensures
            c == (WriterConfig { carrier, ..self }),
    {
        let mut c = self;
        c.carrier = carrier;
        c
    }

    pub fn idle(self, idle: Option<PinState>) -> (c: Self)
        ensures
            c == (WriterConfig { idle, ..self }),
    {
        let mut c = self;
        c.idle = idle;
        c
    }

    /// The record that programs `channel` to drive the pin `gpio_num` with
    /// this configuration. Where there is no carrier, the record holds the
    /// default carrier, switched off.
    pub open spec fn spec_record(self, channel: u32, gpio_num: i32) -> TxConfig {
        TxConfig {
            channel,
            gpio_num,
            clk_div: self.clock_divider,
            mem_block_num: self.mem_block_num,
            flags: if self.aware_dfs {
                CHANNEL_FLAGS_AWARE_DFS
            } else {
                0
            },
            carrier_en: self.carrier is Some,
            carrier_freq_hz: match self.carrier {
                Some(carrier) => carrier.frequency.0,
                None => 38_000,
            },
            carrier_level: match self.carrier {
                Some(carrier) => carrier.carrier_level.spec_bit() as u32,
                None => 1,
            },
            carrier_duty_percent: match self.carrier {
                Some(carrier) => carrier.duty_percent@ as u8,
                None => 33,
            },
            idle_output_en: self.idle is Some,
            idle_level: match self.idle {
                Some(level) => level.spec_bit() as u32,
                None => 0,
            },
            loop_en: self.looping != Loop::Off,
            loop_count: match self.looping {
                Loop::Off => 0,
                Loop::Count(count) => count,
            },
        }
    }

    /// The record that programs `channel` to drive the pin `gpio_num` with
    /// this configuration.
    pub fn record(&self, channel: u32, gpio_num: i32) -> (record: TxConfig)
        ensures
            record == self.spec_record(channel, gpio_num),
    {
        let mut flags: u32 = 0;
        if self.aware_dfs {
            flags = CHANNEL_FLAGS_AWARE_DFS;
        }
        let carrier_en = self.carrier.is_some();
        let carrier = match self.carrier {
            Some(carrier) => carrier,
            None => CarrierConfig::default(),
        };
        let (loop_en, loop_count) = match self.looping {
            Loop::Off => (false, 0u32),
            Loop::Count(count) => (true, count),
        };
        let (idle_output_en, idle_level) = match self.idle {
            Some(level) => (true, level.bit()),
            None => (false, 0u32),
        };
        TxConfig {
            channel,
            gpio_num,
            clk_div: self.clock_divider,
            mem_block_num: self.mem_block_num,
            flags,
            carrier_en,
            carrier_freq_hz: carrier.frequency.0,
            carrier_level: carrier.carrier_level.bit(),
            carrier_duty_percent: carrier.duty_percent.percent(),
            idle_output_en,
            idle_level,
            loop_en,
            loop_count,
        }
    }
}

} // verus!
