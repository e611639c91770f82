use hellomch::bridge::{BridgeAction, BridgeState, SetupStep};
use hellomch::events::{Rp2040Input, Rp2040InputEvent};
use hellomch::mchcoproc::{
    BusError, ReadTransaction, Rp2040, Rp2040Error, UnsupportedFirmware, RP2040_I2C_ADDR,
};
use hellomch::registers::Rp2040Reg;

fn device_with_version(version: u8) -> Rp2040 {
    let mut device = Rp2040::new();
    assert_eq!(device.get_firmware_version(Ok([version])), Ok(version));
    device
}

#[test]
fn device_address_is_fixed() {
    assert_eq!(RP2040_I2C_ADDR, 0x17);
    let device = Rp2040::new();
    assert_eq!(
        device.read_reg(Rp2040Reg::GpioIn, 3),
        ReadTransaction { device: 0x17, register: 2, len: 3 }
    );
}

#[test]
fn firmware_version_is_one_byte_at_register_zero() {
    let device = Rp2040::new();
    assert_eq!(
        device.get_firmware_version_request(),
        ReadTransaction { device: 0x17, register: 0, len: 1 }
    );
}

#[test]
fn firmware_version_is_returned_and_cached() {
    let mut device = Rp2040::new();
    assert!(device.read_vbat_request().is_err());
    assert_eq!(device.get_firmware_version(Ok([0x05])), Ok(0x05));
    assert!(device.read_vbat_request().is_ok());
}

#[test]
fn failed_version_read_is_a_bus_error_and_keeps_the_cache() {
    let mut device = device_with_version(3);
    assert_eq!(
        device.get_firmware_version(Err(BusError { code: 263 })),
        Err(Rp2040Error::Bus(BusError { code: 263 }))
    );
    assert!(device.read_vbat_request().is_ok());
}

#[test]
fn vbat_with_firmware_one_is_unsupported_and_asks_nothing_of_the_bus() {
    let device = device_with_version(1);
    assert_eq!(device.read_vbat_request(), Err(UnsupportedFirmware(1)));
    assert_eq!(
        device.read_vbat_raw(Ok([0x00, 0x08])),
        Err(Rp2040Error::UnsupportedFirmware(UnsupportedFirmware(1)))
    );
}

#[test]
fn vbat_gate_by_version() {
    assert_eq!(Rp2040::new().read_vbat_request(), Err(UnsupportedFirmware(0)));
    assert_eq!(device_with_version(0xff).read_vbat_request(), Err(UnsupportedFirmware(0xff)));
    for version in [2u8, 3, 0x7f, 0xfe] {
        assert_eq!(
            device_with_version(version).read_vbat_request(),
            Ok(ReadTransaction { device: 0x17, register: 13, len: 2 })
        );
    }
}

#[test]
fn vbat_count_is_high_byte_times_256_plus_low_byte() {
    let device = device_with_version(2);
    assert_eq!(device.read_vbat_raw(Ok([0x00, 0x08])), Ok(2048));
    assert_eq!(device.read_vbat_raw(Ok([0x34, 0x12])), Ok(0x1234));
    assert_eq!(device.read_vbat_raw(Ok([0xff, 0x0f])), Ok(4095));
    assert_eq!(device.read_vbat_raw(Ok([0x00, 0x00])), Ok(0));
    assert_eq!(device.read_vbat_raw(Ok([0xff, 0xff])), Ok(0xffff));
}

#[test]
fn vbat_bus_failure_is_passed_on() {
    let device = device_with_version(2);
    assert_eq!(
        device.read_vbat_raw(Err(BusError { code: -1 })),
        Err(Rp2040Error::Bus(BusError { code: -1 }))
    );
}

#[test]
fn unsupported_firmware_wins_over_a_bus_failure() {
    let device = device_with_version(0xff);
    assert_eq!(
        device.read_vbat_raw(Err(BusError { code: 5 })),
        Err(Rp2040Error::UnsupportedFirmware(UnsupportedFirmware(0xff)))
    );
}

#[test]
fn inputs_are_four_bytes_at_the_first_input_register() {
    assert_eq!(
        Rp2040::new().read_inputs_request(),
        ReadTransaction { device: 0x17, register: 6, len: 4 }
    );
}

#[test]
fn inputs_are_decoded_from_the_reply() {
    let device = Rp2040::new();
    assert_eq!(
        device.read_inputs(Ok([0x01, 0x00, 0x02, 0x00])),
        vec![Rp2040InputEvent { input: Rp2040Input::ButtonMenu, is_released: true }]
    );
    assert_eq!(
        device.read_inputs(Ok([0x00, 0x10, 0x00, 0x10])),
        vec![Rp2040InputEvent { input: Rp2040Input::JoystickRight, is_released: false }]
    );
    assert_eq!(device.read_inputs(Ok([0xff, 0xff, 0x00, 0x40])), vec![]);
}

#[test]
fn failed_input_read_gives_no_events() {
    assert_eq!(Rp2040::new().read_inputs(Err(BusError { code: 263 })), vec![]);
}

#[test]
fn write_frame_is_the_register_then_the_data() {
    let device = Rp2040::new();
    let frame = device.write_reg(Rp2040Reg::LcdBacklight, &[0xaa, 0xbb, 0xcc]);
    assert_eq!(frame.device, 0x17);
    assert_eq!(frame.bytes, vec![4, 0xaa, 0xbb, 0xcc]);
    assert_eq!(device.write_reg(Rp2040Reg::Scratch0, &[]).bytes, vec![32]);
}

#[test]
fn rc5_trigger_frame() {
    let device = Rp2040::new();
    let with_toggle = device.write_ir_trigger_rc5(true, 0x1234, 0x0056);
    assert_eq!(with_toggle.device, 0x17);
    assert_eq!(with_toggle.bytes, vec![96, 0x34, 0x12, 0x56, 0x02]);
    let without = device.write_ir_trigger_rc5(false, 0x00ff, 0xab01);
    assert_eq!(without.bytes, vec![96, 0xff, 0x00, 0x01, 0x03]);
}

#[test]
fn setup_interrupt_needs_firmware_one() {
    let mut device = Rp2040::new();
    assert!(matches!(
        device.setup_interrupt(Ok([0])),
        Err(Rp2040Error::UnsupportedFirmware(UnsupportedFirmware(0)))
    ));
    let bridge = device.setup_interrupt(Ok([1])).unwrap();
    assert_eq!(bridge.state(), BridgeState::Init(SetupStep::ConfigurePin));
    assert_eq!(bridge.action(), BridgeAction::Setup(SetupStep::ConfigurePin));
    assert_eq!(device.read_vbat_request(), Err(UnsupportedFirmware(1)));
    assert!(device.setup_interrupt(Ok([0xff])).is_ok());
}

#[test]
fn setup_interrupt_passes_a_bus_failure_on() {
    let mut device = device_with_version(4);
    assert!(matches!(
        device.setup_interrupt(Err(BusError { code: 9 })),
        Err(Rp2040Error::Bus(BusError { code: 9 }))
    ));
    assert!(device.read_vbat_request().is_ok());
}

#[test]
fn unsupported_firmware_message() {
    assert_eq!(UnsupportedFirmware(1).message(), "unsupported firmware version: 0x1");
    assert_eq!(UnsupportedFirmware(0).message(), "unsupported firmware version: 0x0");
    assert_eq!(UnsupportedFirmware(0x0f).message(), "unsupported firmware version: 0xF");
    assert_eq!(UnsupportedFirmware(0x10).message(), "unsupported firmware version: 0x10");
    assert_eq!(UnsupportedFirmware(0xff).message(), "unsupported firmware version: 0xFF");
    for version in 0..=255u8 {
        assert_eq!(
            UnsupportedFirmware(version).message(),
            format!("unsupported firmware version: {:#X}", version)
        );
    }
}

#[test]
fn register_addresses() {
    assert_eq!(u8::from(Rp2040Reg::FwVer), 0);
    assert_eq!(u8::from(Rp2040Reg::Input1), 6);
    assert_eq!(u8::from(Rp2040Reg::Input2), 7);
    assert_eq!(u8::from(Rp2040Reg::Interrupt1), 8);
    assert_eq!(u8::from(Rp2040Reg::Interrupt2), 9);
    assert_eq!(u8::from(Rp2040Reg::AdcValueVbatLo), 13);
    assert_eq!(u8::from(Rp2040Reg::AdcValueVbatHi), 14);
    assert_eq!(u8::from(Rp2040Reg::Uid0), 24);
    assert_eq!(u8::from(Rp2040Reg::Scratch0), 32);
    assert_eq!(u8::from(Rp2040Reg::Scratch63), 95);
    assert_eq!(u8::from(Rp2040Reg::IrAddressLo), 96);
    assert_eq!(u8::from(Rp2040Reg::IrTrigger), 99);
    assert_eq!(u8::from(Rp2040Reg::Ws2812Mode), 104);
    assert_eq!(u8::from(Rp2040Reg::MscControl), 148);
    assert_eq!(u8::from(Rp2040Reg::Msc1BlockSizeHi), 161);
}
