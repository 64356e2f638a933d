use rmt::{Item, PinState, Pulse, PulseTicks, RmtError, Signal, StackPairedSignal, VecSignal};

fn pulse(level: PinState, ticks: u16) -> Pulse {
    Pulse::new(level, PulseTicks::new(ticks).unwrap())
}

fn a() -> Pulse {
    pulse(PinState::High, 100)
}

fn b() -> Pulse {
    pulse(PinState::Low, 200)
}

fn c() -> Pulse {
    pulse(PinState::High, 300)
}

fn d() -> Pulse {
    pulse(PinState::Low, 32767)
}

#[test]
fn new_growable_signal_is_empty() {
    let signal = VecSignal::new();
    assert!(signal.as_slice().is_empty());
}

#[test]
fn three_pulses_make_two_items() {
    let mut signal = VecSignal::new();
    assert_eq!(signal.add(vec![a(), b(), c()]), Ok(()));
    let items = signal.as_slice();
    assert_eq!(items.len(), 2);
    assert_eq!(items[0], Item::new(&a(), &b()));
    assert_eq!(items[0].first(), a());
    assert_eq!(items[0].second(), b());
    assert_eq!(items[1], Item::from_first(&c()));
    assert_eq!(items[1].first(), c());
    assert_eq!(items[1].second(), pulse(PinState::Low, 0));
    assert_eq!(items[1].val >> 16, 0);
}

#[test]
fn four_pulses_make_two_items() {
    let mut signal = VecSignal::new();
    assert_eq!(signal.add(vec![a(), b(), c(), d()]), Ok(()));
    assert_eq!(signal.as_slice(), &[Item::new(&a(), &b()), Item::new(&c(), &d())]);
}

#[test]
fn pulses_added_one_by_one_fill_the_same_items() {
    let mut one_by_one = VecSignal::new();
    for p in [a(), b(), c(), d(), a()] {
        one_by_one.add(vec![p]).unwrap();
    }
    let mut at_once = VecSignal::new();
    at_once.add(vec![a(), b(), c(), d(), a()]).unwrap();
    assert_eq!(one_by_one.as_slice(), at_once.as_slice());
    assert_eq!(
        at_once.as_slice(),
        &[Item::new(&a(), &b()), Item::new(&c(), &d()), Item::from_first(&a())]
    );
}

#[test]
fn a_later_pulse_fills_the_second_half() {
    let mut signal = VecSignal::new();
    signal.add(vec![a(), b(), c()]).unwrap();
    signal.add(vec![d(), a()]).unwrap();
    assert_eq!(
        signal.as_slice(),
        &[Item::new(&a(), &b()), Item::new(&c(), &d()), Item::from_first(&a())]
    );
}

#[test]
fn adding_no_pulses_changes_nothing() {
    let mut signal = VecSignal::new();
    assert_eq!(signal.add(vec![]), Ok(()));
    assert!(signal.as_slice().is_empty());
    signal.add(vec![a()]).unwrap();
    signal.add(vec![]).unwrap();
    assert_eq!(signal.as_slice(), &[Item::from_first(&a())]);
    signal.add(vec![b()]).unwrap();
    assert_eq!(signal.as_slice(), &[Item::new(&a(), &b())]);
}

#[test]
fn clear_resets_items_and_half_filled_flag() {
    let mut signal = VecSignal::new();
    signal.add(vec![a(), b(), c(), d(), a()]).unwrap();
    assert_eq!(signal.as_slice().len(), 3);
    signal.clear();
    assert!(signal.as_slice().is_empty());
    signal.add(vec![b()]).unwrap();
    let items = signal.as_slice();
    assert_eq!(items.len(), 1);
    assert_eq!(items[0].first(), b());
    assert_eq!(items[0].val >> 16, 0);
    assert_eq!(items[0], Item::from_first(&b()));
}

#[test]
fn clear_of_an_even_signal() {
    let mut signal = VecSignal::new();
    signal.add(vec![a(), b()]).unwrap();
    signal.clear();
    signal.add(vec![c(), d()]).unwrap();
    assert_eq!(signal.as_slice(), &[Item::new(&c(), &d())]);
}

#[test]
fn clone_of_a_growable_signal_goes_its_own_way() {
    let mut signal = VecSignal::new();
    signal.add(vec![a(), b(), c()]).unwrap();
    let mut copy = signal.clone();
    assert_eq!(copy.as_slice(), signal.as_slice());
    copy.add(vec![d()]).unwrap();
    assert_eq!(copy.as_slice(), &[Item::new(&a(), &b()), Item::new(&c(), &d())]);
    assert_eq!(signal.as_slice(), &[Item::new(&a(), &b()), Item::from_first(&c())]);
}

#[test]
fn many_pulses() {
    let mut signal = VecSignal::new();
    let mut pulses = Vec::new();
    for k in 0..1001u16 {
        pulses.push(pulse(if k % 3 == 0 { PinState::High } else { PinState::Low }, k));
    }
    signal.add(pulses.clone()).unwrap();
    let items = signal.as_slice();
    assert_eq!(items.len(), 501);
    for (i, item) in items.iter().enumerate() {
        assert_eq!(item.first(), pulses[2 * i]);
        if 2 * i + 1 < pulses.len() {
            assert_eq!(item.second(), pulses[2 * i + 1]);
        } else {
            assert_eq!(item.val >> 16, 0);
        }
    }
}

#[test]
fn new_fixed_signal_is_all_zero() {
    let signal = StackPairedSignal::<3>::new();
    assert_eq!(signal.as_slice(), &[Item::zero(), Item::zero(), Item::zero()]);
    let empty = StackPairedSignal::<0>::new();
    assert!(empty.as_slice().is_empty());
}

#[test]
fn set_beyond_capacity_is_out_of_range() {
    let mut signal = StackPairedSignal::<3>::new();
    assert_eq!(signal.set(5, &(a(), b())), Err(RmtError::IndexOutOfRange));
    assert_eq!(signal.set(3, &(a(), b())), Err(RmtError::IndexOutOfRange));
    assert_eq!(signal.set(usize::MAX, &(a(), b())), Err(RmtError::IndexOutOfRange));
    assert_eq!(signal.as_slice(), &[Item::zero(), Item::zero(), Item::zero()]);
}

#[test]
fn set_within_capacity_shows_in_the_slice() {
    let mut signal = StackPairedSignal::<3>::new();
    assert_eq!(signal.set(2, &(a(), b())), Ok(()));
    assert_eq!(signal.as_slice(), &[Item::zero(), Item::zero(), Item::new(&a(), &b())]);
    assert_eq!(signal.set(0, &(c(), d())), Ok(()));
    assert_eq!(signal.as_slice(), &[Item::new(&c(), &d()), Item::zero(), Item::new(&a(), &b())]);
}

#[test]
fn set_overwrites_all_bits() {
    let mut signal = StackPairedSignal::<1>::new();
    signal.set(0, &(pulse(PinState::High, 32767), pulse(PinState::High, 32767))).unwrap();
    assert_eq!(signal.as_slice()[0].val, u32::MAX);
    signal.set(0, &(pulse(PinState::Low, 1), pulse(PinState::Low, 2))).unwrap();
    assert_eq!(signal.as_slice()[0].val, 1 | (2 << 16));
}

#[test]
fn set_on_an_empty_signal_fails() {
    let mut signal = StackPairedSignal::<0>::new();
    assert_eq!(signal.set(0, &(a(), b())), Err(RmtError::IndexOutOfRange));
}

#[test]
fn clone_of_a_fixed_signal_goes_its_own_way() {
    let mut signal = StackPairedSignal::<2>::new();
    signal.set(0, &(a(), b())).unwrap();
    let mut copy = signal.clone();
    copy.set(1, &(c(), d())).unwrap();
    assert_eq!(signal.as_slice(), &[Item::new(&a(), &b()), Item::zero()]);
    assert_eq!(copy.as_slice(), &[Item::new(&a(), &b()), Item::new(&c(), &d())]);
}

#[test]
fn colour_bits_fill_a_fixed_signal() {
    let t0h = pulse(PinState::High, 28);
    let t0l = pulse(PinState::Low, 64);
    let t1h = pulse(PinState::High, 56);
    let t1l = pulse(PinState::Low, 48);
    let rgb: u32 = 0xff0000;
    let mut signal = StackPairedSignal::<24>::new();
    for i in 0..24u32 {
        let bit = 2_u32.pow(i) & rgb != 0;
        let pair = if bit { (t1h, t1l) } else { (t0h, t0l) };
        signal.set(i as usize, &pair).unwrap();
    }
    let items = signal.as_slice();
    assert_eq!(items.len(), 24);
    for (i, item) in items.iter().enumerate() {
        let expected = if i >= 16 { Item::new(&t1h, &t1l) } else { Item::new(&t0h, &t0l) };
        assert_eq!(*item, expected);
    }
}
