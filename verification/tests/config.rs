use rmt::config::{CarrierConfig, DutyPercent, Loop, WriterConfig};
use rmt::engine::{TxConfig, CHANNEL_FLAGS_AWARE_DFS};
use rmt::units::Hertz;
use rmt::{PinState, RmtError};

#[test]
fn duty_percent_up_to_100_is_accepted() {
    for v in 0..=100u8 {
        assert_eq!(DutyPercent::new(v).map(|d| d.percent()), Ok(v));
    }
}

#[test]
fn duty_percent_above_100_is_rejected() {
    for v in 101..=255u8 {
        assert_eq!(DutyPercent::new(v), Err(RmtError::InvalidArgument));
    }
}

#[test]
fn default_carrier() {
    let carrier = CarrierConfig::new();
    assert_eq!(carrier.frequency, Hertz(38_000));
    assert_eq!(carrier.carrier_level, PinState::High);
    assert_eq!(carrier.idle_level, PinState::Low);
    assert_eq!(carrier.duty_percent, DutyPercent::new(33).unwrap());
    assert_eq!(CarrierConfig::default(), carrier);
}

#[test]
fn carrier_builders_change_one_field_each() {
    let base = CarrierConfig::new();
    let c = base.frequency(Hertz(611));
    assert_eq!(c, CarrierConfig { frequency: Hertz(611), ..base });
    let c = base.carrier_level(PinState::Low);
    assert_eq!(c, CarrierConfig { carrier_level: PinState::Low, ..base });
    let c = base.idle_level(PinState::High);
    assert_eq!(c, CarrierConfig { idle_level: PinState::High, ..base });
    let c = base.duty_percent(DutyPercent::new(50).unwrap());
    assert_eq!(c, CarrierConfig { duty_percent: DutyPercent::new(50).unwrap(), ..base });
    assert_eq!(c.duty_percent.percent(), 50);
}

#[test]
fn default_writer_config() {
    let config = WriterConfig::new();
    assert_eq!(config.clock_divider, 80);
    assert_eq!(config.mem_block_num, 1);
    assert_eq!(config.carrier, None);
    assert_eq!(config.looping, Loop::Off);
    assert_eq!(config.idle, Some(PinState::Low));
    assert!(!config.aware_dfs);
    assert_eq!(WriterConfig::default(), config);
}

#[test]
fn writer_config_builders_change_one_field_each() {
    let base = WriterConfig::new();
    assert_eq!(base.aware_dfs(true), WriterConfig { aware_dfs: true, ..base });
    assert_eq!(base.mem_block_num(4), WriterConfig { mem_block_num: 4, ..base });
    assert_eq!(base.clock_divider(1), WriterConfig { clock_divider: 1, ..base });
    assert_eq!(base.looping(Loop::Count(7)), WriterConfig { looping: Loop::Count(7), ..base });
    let carrier = CarrierConfig::new().frequency(Hertz(611));
    assert_eq!(base.carrier(Some(carrier)), WriterConfig { carrier: Some(carrier), ..base });
    assert_eq!(base.idle(None), WriterConfig { idle: None, ..base });
    assert_eq!(
        base.idle(Some(PinState::High)),
        WriterConfig { idle: Some(PinState::High), ..base }
    );
}

#[test]
fn record_of_the_default_config() {
    let record = WriterConfig::new().record(0, 18);
    assert_eq!(
        record,
        TxConfig {
            channel: 0,
            gpio_num: 18,
            clk_div: 80,
            mem_block_num: 1,
            flags: 0,
            carrier_en: false,
            carrier_freq_hz: 38_000,
            carrier_level: 1,
            carrier_duty_percent: 33,
            idle_output_en: true,
            idle_level: 0,
            loop_en: false,
            loop_count: 0,
        }
    );
}

#[test]
fn record_of_a_full_config() {
    let carrier = CarrierConfig::new()
        .duty_percent(DutyPercent::new(50).unwrap())
        .frequency(Hertz(611))
        .carrier_level(PinState::Low)
        .idle_level(PinState::High);
    let config = WriterConfig::new()
        .carrier(Some(carrier))
        .looping(Loop::Count(1323))
        .clock_divider(255)
        .mem_block_num(2)
        .idle(Some(PinState::High))
        .aware_dfs(true);
    assert_eq!(
        config.record(3, 17),
        TxConfig {
            channel: 3,
            gpio_num: 17,
            clk_div: 255,
            mem_block_num: 2,
            flags: CHANNEL_FLAGS_AWARE_DFS,
            carrier_en: true,
            carrier_freq_hz: 611,
            carrier_level: 0,
            carrier_duty_percent: 50,
            idle_output_en: true,
            idle_level: 1,
            loop_en: true,
            loop_count: 1323,
        }
    );
}

#[test]
fn record_without_idle_level_and_with_loop_count_zero() {
    let config = WriterConfig::new().idle(None).looping(Loop::Count(0));
    let record = config.record(7, -1);
    assert!(!record.idle_output_en);
    assert_eq!(record.idle_level, 0);
    assert!(record.loop_en);
    assert_eq!(record.loop_count, 0);
    assert_eq!(record.channel, 7);
    assert_eq!(record.gpio_num, -1);
}

#[test]
fn loop_count_above_documented_maximum_is_handed_on() {
    let record = WriterConfig::new().looping(Loop::Count(u32::MAX)).record(0, 0);
    assert!(record.loop_en);
    assert_eq!(record.loop_count, u32::MAX);
}
