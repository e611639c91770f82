//! The coprocessor as seen over the bus: which transactions to make, what
//! their answers mean, and which firmware an operation needs.
//!
//! Nothing here touches the bus. Each operation names the transaction that
//! its caller has to make and takes the answer of the bus as an argument.

use crate::bridge::{BridgeState, InterruptBridge, SetupStep};
use crate::events::{change_mask, decode_inputs, decoded, input_word, level_mask, word_of};
use crate::events::Rp2040InputEvent;
use crate::registers::Rp2040Reg;
use vstd::prelude::*;
use vstd::string::StringExecFns;

verus! {

/// The bus address of the coprocessor.
pub const RP2040_I2C_ADDR: u8 = 0x17;

/// The firmware version that means that none was read yet.
pub const FW_VERSION_UNKNOWN: u8 = 0;

/// The firmware version that is reserved as invalid.
pub const FW_VERSION_INVALID: u8 = 0xFF;

/// An operation was asked of a firmware that cannot do it. Holds the
/// firmware version that was found.
#[derive(Copy, Clone, Debug, Eq, PartialEq, Structural)]
pub struct UnsupportedFirmware(pub u8);

/// The upper-case hexadecimal digit of a value below 16.
pub open spec fn hex_digit(value: u8) -> Seq<char> {
    match value {
        0 => "0"@,
        1 => "1"@,
        2 => "2"@,
        3 => "3"@,
        4 => "4"@,
        5 => "5"@,
        6 => "6"@,
        7 => "7"@,
        8 => "8"@,
        9 => "9"@,
        10 => "A"@,
        11 => "B"@,
        12 => "C"@,
        13 => "D"@,
        14 => "E"@,
        _ => "F"@,
    }
}

/// A byte in upper-case hexadecimal digits, without leading zeros.
pub open spec fn hex_upper(value: u8) -> Seq<char> {
    if value < 16 {
        hex_digit(value)
    } else {
        hex_digit(value / 16) + hex_digit(value % 16)
    }
}

fn hex_digit_str(value: u8) -> (digit: &'static str)
    requires
        value < 16,
    ensures
        digit@ == hex_digit(value),
{
    match value {
        0 => "0",
        1 => "1",
        2 => "2",
        3 => "3",
        4 => "4",
        5 => "5",
        6 => "6",
        7 => "7",
        8 => "8",
        9 => "9",
        10 => "A",
        11 => "B",
        12 => "C",
        13 => "D",
        14 => "E",
        _ => "F",
    }
}

impl UnsupportedFirmware {
    /// The text of the error.
    pub open spec fn spec_message(self) -> Seq<char> {
        "unsupported firmware version: 0x"@ + hex_upper(self.0)
    }

    /// The text of the error: the firmware version in hexadecimal behind a
    /// fixed phrase.
    pub fn message(&self) -> (text: String)
        ensures
            text@ == self.spec_message(),
    {
        let mut text = String::from_str("unsupported firmware version: 0x");
        if self.0 >= 16 {
            text.append(hex_digit_str(self.0 / 16));
        }
        text.append(hex_digit_str(self.0 % 16));
        text
    }
}

/// A bus transaction that failed, by timeout or because the device did not
/// answer. Holds the code that the transport reported.
#[derive(Copy, Clone, Debug, Eq, PartialEq, Structural)]
pub struct BusError {
    pub code: i32,
}

/// Why an operation on the coprocessor failed.
#[derive(Copy, Clone, Debug, Eq, PartialEq, Structural)]
pub enum Rp2040Error {
    /// The bus transaction failed.
    Bus(BusError),
    /// The firmware is too old for the operation, or its version is the
    /// reserved invalid one.
    UnsupportedFirmware(UnsupportedFirmware),
}

/// An addressed read: write the register's address byte to the device, then
/// read `len` bytes from it.
#[derive(Copy, Clone, Debug, Eq, PartialEq, Structural)]
pub struct ReadTransaction {
    pub device: u8,
    pub register: u8,
    pub len: usize,
}

/// An addressed write: send `bytes` to the device, the register's address
/// byte first and the data behind it.
#[derive(Clone, Debug, Eq, PartialEq)]
pub struct WriteTransaction {
    pub device: u8,
    pub bytes: Vec<u8>,
}

/// Whether a firmware of this version arms interrupts.
pub open spec fn supports_interrupts(version: u8) -> bool {
    version >= 1
}

/// Whether a firmware of this version answers reads of the analog inputs.
pub open spec fn supports_adc(version: u8) -> bool {
    version >= 2 && version != FW_VERSION_INVALID
}

/// The count of the analog converter out of its two register bytes.
pub open spec fn adc_count(low: u8, high: u8) -> int {
    high * 256 + low
}

/// The frame that triggers an RC5 infrared transmission: the address of the
/// first of the four infrared registers, then the low and the high byte of
/// the infrared address, the low byte of the command, and the protocol.
pub open spec fn rc5_frame(toggle: bool, address: u16, command: u16) -> Seq<u8> {
    seq![
        Rp2040Reg::IrAddressLo.address(),
        (address % 256) as u8,
        (address / 256) as u8,
        (command % 256) as u8,
        if toggle { 0x2u8 } else { 0x3u8 },
    ]
}

/// What is known of the coprocessor: its bus address and the firmware
/// version that was read last.
pub struct Rp2040 {
    addr: u8,
    fw_version: u8,
}

impl Rp2040 {
    /// The address of the device on the bus.
    pub closed spec fn bus_address(&self) -> u8 {
        self.addr
    }

    /// The firmware version that was read last, `FW_VERSION_UNKNOWN` if
    /// none was.
    pub closed spec fn cached_version(&self) -> u8 {
        self.fw_version
    }

    /// The read of `len` bytes that starts at `reg`.
    pub open spec fn spec_read_reg(&self, reg: Rp2040Reg, len: usize) -> ReadTransaction {
        ReadTransaction { device: self.bus_address(), register: reg.address(), len }
    }

    /// A coprocessor of which no firmware version is known yet.
    pub fn new() -> (device: Self)
        ensures
            device.bus_address() == RP2040_I2C_ADDR,
            device.cached_version() == FW_VERSION_UNKNOWN,
    {
        Self { addr: RP2040_I2C_ADDR, fw_version: FW_VERSION_UNKNOWN }
    }

    /// The transaction that reads `len` bytes starting at `reg`.
    pub fn read_reg(&self, reg: Rp2040Reg, len: usize) -> (transaction: ReadTransaction)
        ensures
            transaction == self.spec_read_reg(reg, len),
    {
        ReadTransaction { device: self.addr, register: u8::from(reg), len }
    }

    /// The transaction that writes `data` starting at `reg`.
    pub fn write_reg(&self, reg: Rp2040Reg, data: &[u8]) -> (transaction: WriteTransaction)
        ensures
            transaction.device == self.bus_address(),
            transaction.bytes@ == seq![reg.address()] + data@,
    {
        let mut out: Vec<u8> = Vec::new();
        out.push(u8::from(reg));
        let mut i: usize = 0;
        while i < data.len()
            invariant
                i <= data.len(),
                out@ == seq![reg.address()] + data@.take(i as int),
            decreases data.len() - i,
        {
            out.push(data[i]);
            assert(data@.take(i + 1) =~= data@.take(i as int).push(data@[i as int]));
            i += 1;
        }
        assert(data@.take(i as int) =~= data@);
        WriteTransaction { device: self.addr, bytes: out }
    }

    /// The transaction that reads the firmware version.
    pub fn get_firmware_version_request(&self) -> (transaction: ReadTransaction)
        ensures
            transaction == self.spec_read_reg(Rp2040Reg::FwVer, 1),
    {
        self.read_reg(Rp2040Reg::FwVer, 1)
    }

    /// Takes the answer to the read of the firmware version. A version that
    /// was read is remembered and returned; a failure of the bus is passed on
    /// and leaves what was remembered.
    pub fn get_firmware_version(&mut self, reply: Result<[u8; 1], BusError>) -> (version: Result<
        u8,
        Rp2040Error,
    >)
        ensures
            final(self).bus_address() == old(self).bus_address(),
            match reply {
                Ok(buf) => version == Ok::<u8, Rp2040Error>(buf[0]) && final(self).cached_version()
                    == buf[0],
                Err(error) => version == Err::<u8, Rp2040Error>(Rp2040Error::Bus(error))
                    && final(self).cached_version() == old(self).cached_version(),
            },
    {
        match reply {
            Ok(buf) => {
                self.fw_version = buf[0];
                Ok(self.fw_version)
            },
            Err(error) => Err(Rp2040Error::Bus(error)),
        }
    }

    /// The transaction that reads the battery voltage count, or the reason
    /// why none is to be made: the firmware that is known cannot answer it.
    pub fn read_vbat_request(&self) -> (transaction: Result<ReadTransaction, UnsupportedFirmware>)
        ensures
            transaction == if supports_adc(self.cached_version()) {
                Ok::<ReadTransaction, UnsupportedFirmware>(
                    self.spec_read_reg(Rp2040Reg::AdcValueVbatLo, 2),
                )
            } else {
                Err::<ReadTransaction, UnsupportedFirmware>(
                    UnsupportedFirmware(self.cached_version()),
                )
            },
    {
        if (self.fw_version < 0x02) || (self.fw_version == FW_VERSION_INVALID) {
            return Err(UnsupportedFirmware(self.fw_version));
        }
        Ok(self.read_reg(Rp2040Reg::AdcValueVbatLo, 2))
    }

    /// The battery voltage count out of the answer to its read: the low byte
    /// comes first, the high byte second. Fails for a firmware that cannot
    /// answer, whatever the bus said, and passes a failure of the bus on.
    pub fn read_vbat_raw(&self, reply: Result<[u8; 2], BusError>) -> (raw: Result<u16, Rp2040Error>)
        ensures
            raw matches Ok(count) ==> count == adc_count(reply->Ok_0[0], reply->Ok_0[1]),
            raw == if !supports_adc(self.cached_version()) {
                Err::<u16, Rp2040Error>(
                    Rp2040Error::UnsupportedFirmware(UnsupportedFirmware(self.cached_version())),
                )
            } else {
                match reply {
                    Ok(buf) => Ok::<u16, Rp2040Error>(((buf[1] as u16) << 8) | (buf[0] as u16)),
                    Err(error) => Err::<u16, Rp2040Error>(Rp2040Error::Bus(error)),
                }
            },
    {
        if (self.fw_version < 0x02) || (self.fw_version == FW_VERSION_INVALID) {
            return Err(Rp2040Error::UnsupportedFirmware(UnsupportedFirmware(self.fw_version)));
        }
        match reply {
            Ok(buf) => {
                let low = buf[0];
                let high = buf[1];
                assert((((high as u16) << 8) | (low as u16)) == high * 256 + low) by (bit_vector);
                Ok(((high as u16) << 8) | (low as u16))
            },
            Err(error) => Err(Rp2040Error::Bus(error)),
        }
    }

    /// The transaction that reads the input word.
    pub fn read_inputs_request(&self) -> (transaction: ReadTransaction)
        ensures
            transaction == self.spec_read_reg(Rp2040Reg::Input1, 4),
    {
        self.read_reg(Rp2040Reg::Input1, 4)
    }

    /// The input events out of the answer to the read of the input word. A
    /// failure of the bus gives no events: it is swallowed, so that it
    /// cannot stop later polling.
    pub fn read_inputs(&self, reply: Result<[u8; 4], BusError>) -> (events: Vec<Rp2040InputEvent>)
        ensures
            events@ == match reply {
                Ok(buf) => decoded(change_mask(word_of(buf)), level_mask(word_of(buf)), 16),
                Err(_) => Seq::empty(),
            },
    {
        match reply {
            Ok(buf) => decode_inputs(input_word(buf)),
            Err(_) => Vec::new(),
        }
    }

    /// The transaction that triggers an RC5 infrared transmission.
    pub fn write_ir_trigger_rc5(&self, toggle: bool, address: u16, command: u16) -> (transaction:
        WriteTransaction)
        ensures
            transaction.device == self.bus_address(),
            transaction.bytes@ == rc5_frame(toggle, address, command),
    {
        let ir_proto: u8 = if toggle {
            0x2
        } else {
            0x3
        };
        assert((address & 0xff) == address % 256 && (address >> 8) == address / 256 && (address
            >> 8) < 256) by (bit_vector);
        assert((command & 0xff) == command % 256) by (bit_vector);
        let buf: [u8; 4] = [
            (address & 0xff) as u8,
            (address >> 8) as u8,
            (command & 0xff) as u8,
            ir_proto,
        ];
        let transaction = self.write_reg(Rp2040Reg::IrAddressLo, buf.as_slice());
        assert(transaction.bytes@ =~= rc5_frame(toggle, address, command));
        transaction
    }

    /// Takes the answer to the read of the firmware version that precedes
    /// the setup of the interrupt bridge. The version is remembered. Where it
    /// arms interrupts, a bridge at the start of its setup is returned.
    pub fn setup_interrupt(&mut self, reply: Result<[u8; 1], BusError>) -> (bridge: Result<
        InterruptBridge,
        Rp2040Error,
    >)
        ensures
            final(self).bus_address() == old(self).bus_address(),
            match reply {
                Ok(buf) => {
                    &&& final(self).cached_version() == buf[0]
                    &&& if supports_interrupts(buf[0]) {
                        bridge matches Ok(b) && b@ == BridgeState::Init(SetupStep::ConfigurePin)
                    } else {
                        bridge matches Err(e) && e == Rp2040Error::UnsupportedFirmware(
                            UnsupportedFirmware(buf[0]),
                        )
                    }
                },
                Err(error) => {
                    &&& final(self).cached_version() == old(self).cached_version()
                    &&& bridge matches Err(e) && e == Rp2040Error::Bus(error)
                },
            },
    {
        match self.get_firmware_version(reply) {
            Ok(version) => {
                if version < 1 {
                    return Err(Rp2040Error::UnsupportedFirmware(UnsupportedFirmware(version)));
                }
                Ok(InterruptBridge::new())
            },
            Err(error) => Err(error),
        }
    }
}

} // verus!
