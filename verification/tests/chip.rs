use rmt::chip::CHANNEL_COUNT;
use rmt::gpio::{GpioPin, OutputPin};
use rmt::{
    HwChannel, Peripheral, CHANNEL0, CHANNEL1, CHANNEL2, CHANNEL3, CHANNEL4, CHANNEL5, CHANNEL6,
    CHANNEL7,
};

fn id_of<C: HwChannel>(_channel: &C) -> u32 {
    C::channel()
}

#[test]
fn each_channel_has_its_own_number() {
    assert_eq!(CHANNEL0::channel(), 0);
    assert_eq!(CHANNEL1::channel(), 1);
    assert_eq!(CHANNEL2::channel(), 2);
    assert_eq!(CHANNEL3::channel(), 3);
    assert_eq!(CHANNEL4::channel(), 4);
    assert_eq!(CHANNEL5::channel(), 5);
    assert_eq!(CHANNEL6::channel(), 6);
    assert_eq!(CHANNEL7::channel(), 7);
    assert_eq!(CHANNEL_COUNT, 8);
}

#[test]
fn peripheral_holds_one_handle_for_each_channel() {
    let peripheral = Peripheral::new();
    assert_eq!(id_of(&peripheral.channel0), 0);
    assert_eq!(id_of(&peripheral.channel1), 1);
    assert_eq!(id_of(&peripheral.channel2), 2);
    assert_eq!(id_of(&peripheral.channel3), 3);
    assert_eq!(id_of(&peripheral.channel4), 4);
    assert_eq!(id_of(&peripheral.channel5), 5);
    assert_eq!(id_of(&peripheral.channel6), 6);
    assert_eq!(id_of(&peripheral.channel7), 7);
}

#[test]
fn pin_reports_its_number() {
    assert_eq!(GpioPin::new(18).pin(), 18);
    assert_eq!(GpioPin::new(0).pin(), 0);
    assert_eq!(GpioPin::new(17), GpioPin::new(17));
}
