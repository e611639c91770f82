use hellomch::events::{decode_inputs, input_word, Rp2040Input, Rp2040InputEvent};

const CHANNELS: [Rp2040Input; 13] = [
    Rp2040Input::ButtonHome,
    Rp2040Input::ButtonMenu,
    Rp2040Input::ButtonStart,
    Rp2040Input::ButtonAccept,
    Rp2040Input::ButtonBack,
    Rp2040Input::FpgaCdone,
    Rp2040Input::BatteryCharging,
    Rp2040Input::ButtonSelect,
    Rp2040Input::JoystickLeft,
    Rp2040Input::JoystickPress,
    Rp2040Input::JoystickDown,
    Rp2040Input::JoystickUp,
    Rp2040Input::JoystickRight,
];

#[test]
fn menu_changed_with_level_low_is_released() {
    assert_eq!(
        decode_inputs(0x0002_0001),
        vec![Rp2040InputEvent { input: Rp2040Input::ButtonMenu, is_released: true }]
    );
}

#[test]
fn home_changed_with_level_high_is_pressed() {
    assert_eq!(
        decode_inputs(0x0001_0001),
        vec![Rp2040InputEvent { input: Rp2040Input::ButtonHome, is_released: false }]
    );
}

#[test]
fn change_on_an_unmapped_bit_gives_no_event() {
    assert_eq!(decode_inputs(0x4000_0000), vec![]);
    assert_eq!(decode_inputs(0x4000_ffff), vec![]);
    assert_eq!(decode_inputs(0xe000_0000), vec![]);
}

#[test]
fn no_change_gives_no_event() {
    assert_eq!(decode_inputs(0x0000_0000), vec![]);
    assert_eq!(decode_inputs(0x0000_ffff), vec![]);
}

#[test]
fn events_come_in_ascending_bit_order() {
    let events = decode_inputs(0x1005_0004);
    assert_eq!(
        events,
        vec![
            Rp2040InputEvent { input: Rp2040Input::ButtonHome, is_released: true },
            Rp2040InputEvent { input: Rp2040Input::ButtonStart, is_released: false },
            Rp2040InputEvent { input: Rp2040Input::JoystickRight, is_released: true },
        ]
    );
}

#[test]
fn all_bits_changed_gives_the_thirteen_channels() {
    let events = decode_inputs(0xffff_0000);
    let inputs: Vec<Rp2040Input> = events.iter().map(|event| event.input).collect();
    assert_eq!(inputs, CHANNELS.to_vec());
    assert!(events.iter().all(|event| event.is_released));
    assert!(decode_inputs(0xffff_ffff).iter().all(|event| !event.is_released));
}

#[test]
fn mapped_and_unmapped_changes_together() {
    assert_eq!(
        decode_inputs(0xa040_2040),
        vec![Rp2040InputEvent { input: Rp2040Input::BatteryCharging, is_released: false }]
    );
}

#[test]
fn from_repr_names_the_bits_below_thirteen() {
    for (index, channel) in CHANNELS.iter().enumerate() {
        assert_eq!(Rp2040Input::from_repr(index as u8), Some(*channel));
        assert_eq!(u8::from(*channel), index as u8);
    }
    for index in 13..=255u8 {
        assert_eq!(Rp2040Input::from_repr(index), None);
    }
}

#[test]
fn event_new_keeps_its_arguments() {
    let event = Rp2040InputEvent::new(Rp2040Input::JoystickUp, true);
    assert_eq!(event.input, Rp2040Input::JoystickUp);
    assert!(event.is_released);
    assert_eq!(event, Rp2040InputEvent { input: Rp2040Input::JoystickUp, is_released: true });
}

#[test]
fn input_word_is_little_endian() {
    assert_eq!(input_word([0x01, 0x00, 0x02, 0x00]), 0x0002_0001);
    assert_eq!(input_word([0x78, 0x56, 0x34, 0x12]), 0x1234_5678);
    assert_eq!(input_word([0xff, 0xff, 0xff, 0xff]), 0xffff_ffff);
    assert_eq!(input_word([0x78, 0x56, 0x34, 0x12]), u32::from_le_bytes([0x78, 0x56, 0x34, 0x12]));
}
