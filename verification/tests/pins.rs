use bcm_gpio::{fsel_bank, fsel_shift, level_bank, level_shift, GPIO_FSEL_MASK, PIN_COUNT};

#[test]
fn controller_has_54_pins() {
    assert_eq!(PIN_COUNT, 54);
    assert_eq!(GPIO_FSEL_MASK, 0b111);
}

#[test]
fn function_select_place_of_every_pin() {
    for pin in 0..PIN_COUNT {
        assert_eq!(fsel_bank(pin), (pin / 10) as usize);
        assert_eq!(fsel_shift(pin), ((pin % 10) * 3) as u32);
        assert!(fsel_bank(pin) < 6);
        assert!(fsel_shift(pin) + 3 <= 30);
    }
}

#[test]
fn level_place_of_every_pin() {
    for pin in 0..PIN_COUNT {
        assert_eq!(level_bank(pin), (pin / 32) as usize);
        assert_eq!(level_shift(pin), (pin % 32) as u32);
        assert!(level_bank(pin) < 2);
    }
}

#[test]
fn places_of_chosen_pins() {
    assert_eq!((fsel_bank(0), fsel_shift(0)), (0, 0));
    assert_eq!((fsel_bank(9), fsel_shift(9)), (0, 27));
    assert_eq!((fsel_bank(10), fsel_shift(10)), (1, 0));
    assert_eq!((fsel_bank(12), fsel_shift(12)), (1, 6));
    assert_eq!((fsel_bank(53), fsel_shift(53)), (5, 9));
    assert_eq!((level_bank(0), level_shift(0)), (0, 0));
    assert_eq!((level_bank(5), level_shift(5)), (0, 5));
    assert_eq!((level_bank(31), level_shift(31)), (0, 31));
    assert_eq!((level_bank(32), level_shift(32)), (1, 0));
    assert_eq!((level_bank(53), level_shift(53)), (1, 21));
}

#[test]
fn no_two_pins_share_a_place() {
    for pin in 0..PIN_COUNT {
        for other in 0..PIN_COUNT {
            if pin != other {
                assert_ne!((fsel_bank(pin), fsel_shift(pin)), (fsel_bank(other), fsel_shift(other)));
                assert_ne!(
                    (level_bank(pin), level_shift(pin)),
                    (level_bank(other), level_shift(other))
                );
            }
        }
    }
}
