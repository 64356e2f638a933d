use rmt::{Item, PinState, Pulse, PulseTicks};

fn pulse(level: PinState, ticks: u16) -> Pulse {
    Pulse::new(level, PulseTicks::new(ticks).unwrap())
}

#[test]
fn zero_item_is_two_low_pulses_of_no_length() {
    let item = Item::zero();
    assert_eq!(item.val, 0);
    assert_eq!(item.first(), pulse(PinState::Low, 0));
    assert_eq!(item.second(), pulse(PinState::Low, 0));
}

#[test]
fn item_packs_first_pulse_low_and_second_high() {
    let item = Item::new(&pulse(PinState::Low, 10), &pulse(PinState::High, 20));
    // duration0 = 10, level0 = 0, duration1 = 20, level1 = 1.
    assert_eq!(item.val, 10 | (20 << 16) | (1 << 31));
    assert_eq!(item.val, 0x8014_000a);
    let item = Item::new(&pulse(PinState::High, 10), &pulse(PinState::Low, 20));
    assert_eq!(item.val, 10 | (1 << 15) | (20 << 16));
    assert_eq!(item.val, 0x0014_800a);
}

#[test]
fn item_of_largest_pulses_has_all_bits_set() {
    let item = Item::new(&pulse(PinState::High, 32767), &pulse(PinState::High, 32767));
    assert_eq!(item.val, u32::MAX);
    let item = Item::new(&pulse(PinState::Low, 32767), &pulse(PinState::Low, 32767));
    assert_eq!(item.val, 0x7fff_7fff);
}

#[test]
fn item_from_first_leaves_second_half_clear() {
    let item = Item::from_first(&pulse(PinState::High, 300));
    assert_eq!(item.val, 0x8000 + 300);
    assert_eq!(item.first(), pulse(PinState::High, 300));
    assert_eq!(item.second(), pulse(PinState::Low, 0));
}

#[test]
fn set_second_keeps_first() {
    let mut item = Item::from_first(&pulse(PinState::High, 300));
    item.set_second(&pulse(PinState::Low, 7));
    assert_eq!(item, Item::new(&pulse(PinState::High, 300), &pulse(PinState::Low, 7)));
    item.set_second(&pulse(PinState::High, 32767));
    assert_eq!(item.first(), pulse(PinState::High, 300));
    assert_eq!(item.second(), pulse(PinState::High, 32767));
    assert_eq!(item.val, 0xffff_0000 | 0x8000 | 300);
}

#[test]
fn item_round_trip() {
    let levels = [PinState::Low, PinState::High];
    let ticks = [0u16, 1, 2, 255, 256, 1000, 32766, 32767];
    for l0 in levels {
        for t0 in ticks {
            for l1 in levels {
                for t1 in ticks {
                    let (a, b) = (pulse(l0, t0), pulse(l1, t1));
                    let item = Item::new(&a, &b);
                    assert_eq!(item.first(), a);
                    assert_eq!(item.second(), b);
                }
            }
        }
    }
}

#[test]
fn every_record_is_the_packing_of_its_pulses() {
    for val in [0u32, 1, 0xffff, 0x1_0000, 0x8000_0000, 0xdead_beef, 0x1234_5678, u32::MAX] {
        let item = Item { val };
        assert_eq!(Item::new(&item.first(), &item.second()), item);
    }
}
