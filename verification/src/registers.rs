//! The register map of the coprocessor.

use vstd::prelude::*;
use vstd::std_specs::convert::FromSpecImpl;

verus! {

/// The registers of the coprocessor, in the order of their addresses: the
/// first one has address 0, each following one the next address.
#[derive(Copy, Clone, Debug)]
pub enum Rp2040Reg {
    FwVer,
    GpioDir,
    GpioIn,
    GpioOut,
    LcdBacklight,
    Fpga,
    Input1,
    Input2,
    Interrupt1,
    Interrupt2,
    AdcTrigger,
    AdcValueVusbLo,
    AdcValueVusbHi,
    AdcValueVbatLo,
    AdcValueVbatHi,
    Usb,
    BlTrigger,
    WebusbMode,
    CrashDebug,
    ResetLock,
    ResetAttempted,
    ChargingState,
    AdcValueTempLo,
    AdcValueTempHi,
    /// First byte of the unique board identifier.
    Uid0,
    Uid1,
    Uid2,
    Uid3,
    Uid4,
    Uid5,
    Uid6,
    Uid7,
    /// First of the scratch bytes, which keep boot parameters.
    Scratch0,
    Scratch1,
    Scratch2,
    Scratch3,
    Scratch4,
    Scratch5,
    Scratch6,
    Scratch7,
    Scratch8,
    Scratch9,
    Scratch10,
    Scratch11,
    Scratch12,
    Scratch13,
    Scratch14,
    Scratch15,
    Scratch16,
    Scratch17,
    Scratch18,
    Scratch19,
    Scratch20,
    Scratch21,
    Scratch22,
    Scratch23,
    Scratch24,
    Scratch25,
    Scratch26,
    Scratch27,
    Scratch28,
    Scratch29,
    Scratch30,
    Scratch31,
    Scratch32,
    Scratch33,
    Scratch34,
    Scratch35,
    Scratch36,
    Scratch37,
    Scratch38,
    Scratch39,
    Scratch40,
    Scratch41,
    Scratch42,
    Scratch43,
    Scratch44,
    Scratch45,
    Scratch46,
    Scratch47,
    Scratch48,
    Scratch49,
    Scratch50,
    Scratch51,
    Scratch52,
    Scratch53,
    Scratch54,
    Scratch55,
    Scratch56,
    Scratch57,
    Scratch58,
    Scratch59,
    Scratch60,
    Scratch61,
    Scratch62,
    Scratch63,
    IrAddressLo,
    IrAddressHi,
    IrCommand,
    IrTrigger,
    Reserved11,
    Reserved12,
    Reserved13,
    Reserved14,
    Ws2812Mode,
    Ws2812Trigger,
    Ws2812Length,
    Ws2812Speed,
    Ws2812Led0Data0,
    Ws2812Led0Data1,
    Ws2812Led0Data2,
    Ws2812Led0Data3,
    Ws2812Led1Data0,
    Ws2812Led1Data1,
    Ws2812Led1Data2,
    Ws2812Led1Data3,
    Ws2812Led2Data0,
    Ws2812Led2Data1,
    Ws2812Led2Data2,
    Ws2812Led2Data3,
    Ws2812Led3Data0,
    Ws2812Led3Data1,
    Ws2812Led3Data2,
    Ws2812Led3Data3,
    Ws2812Led4Data0,
    Ws2812Led4Data1,
    Ws2812Led4Data2,
    Ws2812Led4Data3,
    Ws2812Led5Data0,
    Ws2812Led5Data1,
    Ws2812Led5Data2,
    Ws2812Led5Data3,
    Ws2812Led6Data0,
    Ws2812Led6Data1,
    Ws2812Led6Data2,
    Ws2812Led6Data3,
    Ws2812Led7Data0,
    Ws2812Led7Data1,
    Ws2812Led7Data2,
    Ws2812Led7Data3,
    Ws2812Led8Data0,
    Ws2812Led8Data1,
    Ws2812Led8Data2,
    Ws2812Led8Data3,
    Ws2812Led9Data0,
    Ws2812Led9Data1,
    Ws2812Led9Data2,
    Ws2812Led9Data3,
    MscControl,
    MscState,
    Msc0BlockCountLoA,
    Msc0BlockCountLoB,
    Msc0BlockCountLoC,
    Msc0BlockCountHi,
    Msc0BlockSizeLo,
    Msc0BlockSizeHi,
    Msc1BlockCountLoA,
    Msc1BlockCountLoB,
    Msc1BlockCountLoC,
    Msc1BlockCountHi,
    Msc1BlockSizeLo,
    Msc1BlockSizeHi,
}

impl Rp2040Reg {
    /// The register's address on the bus.
    pub open spec fn address(self) -> u8 {
        match self {
            Rp2040Reg::FwVer => 0,
            Rp2040Reg::GpioDir => 1,
            Rp2040Reg::GpioIn => 2,
            Rp2040Reg::GpioOut => 3,
            Rp2040Reg::LcdBacklight => 4,
            Rp2040Reg::Fpga => 5,
            Rp2040Reg::Input1 => 6,
            Rp2040Reg::Input2 => 7,
            Rp2040Reg::Interrupt1 => 8,
            Rp2040Reg::Interrupt2 => 9,
            Rp2040Reg::AdcTrigger => 10,
            Rp2040Reg::AdcValueVusbLo => 11,
            Rp2040Reg::AdcValueVusbHi => 12,
            Rp2040Reg::AdcValueVbatLo => 13,
            Rp2040Reg::AdcValueVbatHi => 14,
            Rp2040Reg::Usb => 15,
            Rp2040Reg::BlTrigger => 16,
            Rp2040Reg::WebusbMode => 17,
            Rp2040Reg::CrashDebug => 18,
            Rp2040Reg::ResetLock => 19,
            Rp2040Reg::ResetAttempted => 20,
            Rp2040Reg::ChargingState => 21,
            Rp2040Reg::AdcValueTempLo => 22,
            Rp2040Reg::AdcValueTempHi => 23,
            Rp2040Reg::Uid0 => 24,
            Rp2040Reg::Uid1 => 25,
            Rp2040Reg::Uid2 => 26,
            Rp2040Reg::Uid3 => 27,
            Rp2040Reg::Uid4 => 28,
            Rp2040Reg::Uid5 => 29,
            Rp2040Reg::Uid6 => 30,
            Rp2040Reg::Uid7 => 31,
            Rp2040Reg::Scratch0 => 32,
            Rp2040Reg::Scratch1 => 33,
            Rp2040Reg::Scratch2 => 34,
            Rp2040Reg::Scratch3 => 35,
            Rp2040Reg::Scratch4 => 36,
            Rp2040Reg::Scratch5 => 37,
            Rp2040Reg::Scratch6 => 38,
            Rp2040Reg::Scratch7 => 39,
            Rp2040Reg::Scratch8 => 40,
            Rp2040Reg::Scratch9 => 41,
            Rp2040Reg::Scratch10 => 42,
            Rp2040Reg::Scratch11 => 43,
            Rp2040Reg::Scratch12 => 44,
            Rp2040Reg::Scratch13 => 45,
            Rp2040Reg::Scratch14 => 46,
            Rp2040Reg::Scratch15 => 47,
            Rp2040Reg::Scratch16 => 48,
            Rp2040Reg::Scratch17 => 49,
            Rp2040Reg::Scratch18 => 50,
            Rp2040Reg::Scratch19 => 51,
            Rp2040Reg::Scratch20 => 52,
            Rp2040Reg::Scratch21 => 53,
            Rp2040Reg::Scratch22 => 54,
            Rp2040Reg::Scratch23 => 55,
            Rp2040Reg::Scratch24 => 56,
            Rp2040Reg::Scratch25 => 57,
            Rp2040Reg::Scratch26 => 58,
            Rp2040Reg::Scratch27 => 59,
            Rp2040Reg::Scratch28 => 60,
            Rp2040Reg::Scratch29 => 61,
            Rp2040Reg::Scratch30 => 62,
            Rp2040Reg::Scratch31 => 63,
            Rp2040Reg::Scratch32 => 64,
            Rp2040Reg::Scratch33 => 65,
            Rp2040Reg::Scratch34 => 66,
            Rp2040Reg::Scratch35 => 67,
            Rp2040Reg::Scratch36 => 68,
            Rp2040Reg::Scratch37 => 69,
            Rp2040Reg::Scratch38 => 70,
            Rp2040Reg::Scratch39 => 71,
            Rp2040Reg::Scratch40 => 72,
            Rp2040Reg::Scratch41 => 73,
            Rp2040Reg::Scratch42 => 74,
            Rp2040Reg::Scratch43 => 75,
            Rp2040Reg::Scratch44 => 76,
            Rp2040Reg::Scratch45 => 77,
            Rp2040Reg::Scratch46 => 78,
            Rp2040Reg::Scratch47 => 79,
            Rp2040Reg::Scratch48 => 80,
            Rp2040Reg::Scratch49 => 81,
            Rp2040Reg::Scratch50 => 82,
            Rp2040Reg::Scratch51 => 83,
            Rp2040Reg::Scratch52 => 84,
            Rp2040Reg::Scratch53 => 85,
            Rp2040Reg::Scratch54 => 86,
            Rp2040Reg::Scratch55 => 87,
            Rp2040Reg::Scratch56 => 88,
            Rp2040Reg::Scratch57 => 89,
            Rp2040Reg::Scratch58 => 90,
            Rp2040Reg::Scratch59 => 91,
            Rp2040Reg::Scratch60 => 92,
            Rp2040Reg::Scratch61 => 93,
            Rp2040Reg::Scratch62 => 94,
            Rp2040Reg::Scratch63 => 95,
            Rp2040Reg::IrAddressLo => 96,
            Rp2040Reg::IrAddressHi => 97,
            Rp2040Reg::IrCommand => 98,
            Rp2040Reg::IrTrigger => 99,
            Rp2040Reg::Reserved11 => 100,
            Rp2040Reg::Reserved12 => 101,
            Rp2040Reg::Reserved13 => 102,
            Rp2040Reg::Reserved14 => 103,
            Rp2040Reg::Ws2812Mode => 104,
            Rp2040Reg::Ws2812Trigger => 105,
            Rp2040Reg::Ws2812Length => 106,
            Rp2040Reg::Ws2812Speed => 107,
            Rp2040Reg::Ws2812Led0Data0 => 108,
            Rp2040Reg::Ws2812Led0Data1 => 109,
            Rp2040Reg::Ws2812Led0Data2 => 110,
            Rp2040Reg::Ws2812Led0Data3 => 111,
            Rp2040Reg::Ws2812Led1Data0 => 112,
            Rp2040Reg::Ws2812Led1Data1 => 113,
            Rp2040Reg::Ws2812Led1Data2 => 114,
            Rp2040Reg::Ws2812Led1Data3 => 115,
            Rp2040Reg::Ws2812Led2Data0 => 116,
            Rp2040Reg::Ws2812Led2Data1 => 117,
            Rp2040Reg::Ws2812Led2Data2 => 118,
            Rp2040Reg::Ws2812Led2Data3 => 119,
            Rp2040Reg::Ws2812Led3Data0 => 120,
            Rp2040Reg::Ws2812Led3Data1 => 121,
            Rp2040Reg::Ws2812Led3Data2 => 122,
            Rp2040Reg::Ws2812Led3Data3 => 123,
            Rp2040Reg::Ws2812Led4Data0 => 124,
            Rp2040Reg::Ws2812Led4Data1 => 125,
            Rp2040Reg::Ws2812Led4Data2 => 126,
            Rp2040Reg::Ws2812Led4Data3 => 127,
            Rp2040Reg::Ws2812Led5Data0 => 128,
            Rp2040Reg::Ws2812Led5Data1 => 129,
            Rp2040Reg::Ws2812Led5Data2 => 130,
            Rp2040Reg::Ws2812Led5Data3 => 131,
            Rp2040Reg::Ws2812Led6Data0 => 132,
            Rp2040Reg::Ws2812Led6Data1 => 133,
            Rp2040Reg::Ws2812Led6Data2 => 134,
            Rp2040Reg::Ws2812Led6Data3 => 135,
            Rp2040Reg::Ws2812Led7Data0 => 136,
            Rp2040Reg::Ws2812Led7Data1 => 137,
            Rp2040Reg::Ws2812Led7Data2 => 138,
            Rp2040Reg::Ws2812Led7Data3 => 139,
            Rp2040Reg::Ws2812Led8Data0 => 140,
            Rp2040Reg::Ws2812Led8Data1 => 141,
            Rp2040Reg::Ws2812Led8Data2 => 142,
            Rp2040Reg::Ws2812Led8Data3 => 143,
            Rp2040Reg::Ws2812Led9Data0 => 144,
            Rp2040Reg::Ws2812Led9Data1 => 145,
            Rp2040Reg::Ws2812Led9Data2 => 146,
            Rp2040Reg::Ws2812Led9Data3 => 147,
            Rp2040Reg::MscControl => 148,
            Rp2040Reg::MscState => 149,
            Rp2040Reg::Msc0BlockCountLoA => 150,
            Rp2040Reg::Msc0BlockCountLoB => 151,
            Rp2040Reg::Msc0BlockCountLoC => 152,
            Rp2040Reg::Msc0BlockCountHi => 153,
            Rp2040Reg::Msc0BlockSizeLo => 154,
            Rp2040Reg::Msc0BlockSizeHi => 155,
            Rp2040Reg::Msc1BlockCountLoA => 156,
            Rp2040Reg::Msc1BlockCountLoB => 157,
            Rp2040Reg::Msc1BlockCountLoC => 158,
            Rp2040Reg::Msc1BlockCountHi => 159,
            Rp2040Reg::Msc1BlockSizeLo => 160,
            Rp2040Reg::Msc1BlockSizeHi => 161,
        }
    }
}

impl From<Rp2040Reg> for u8 {
    fn from(r: Rp2040Reg) -> (address: u8) {
        match r {
            Rp2040Reg::FwVer => 0,
            Rp2040Reg::GpioDir => 1,
            Rp2040Reg::GpioIn => 2,
            Rp2040Reg::GpioOut => 3,
            Rp2040Reg::LcdBacklight => 4,
            Rp2040Reg::Fpga => 5,
            Rp2040Reg::Input1 => 6,
            Rp2040Reg::Input2 => 7,
            Rp2040Reg::Interrupt1 => 8,
            Rp2040Reg::Interrupt2 => 9,
            Rp2040Reg::AdcTrigger => 10,
            Rp2040Reg::AdcValueVusbLo => 11,
            Rp2040Reg::AdcValueVusbHi => 12,
            Rp2040Reg::AdcValueVbatLo => 13,
            Rp2040Reg::AdcValueVbatHi => 14,
            Rp2040Reg::Usb => 15,
            Rp2040Reg::BlTrigger => 16,
            Rp2040Reg::WebusbMode => 17,
            Rp2040Reg::CrashDebug => 18,
            Rp2040Reg::ResetLock => 19,
            Rp2040Reg::ResetAttempted => 20,
            Rp2040Reg::ChargingState => 21,
            Rp2040Reg::AdcValueTempLo => 22,
            Rp2040Reg::AdcValueTempHi => 23,
            Rp2040Reg::Uid0 => 24,
            Rp2040Reg::Uid1 => 25,
            Rp2040Reg::Uid2 => 26,
            Rp2040Reg::Uid3 => 27,
            Rp2040Reg::Uid4 => 28,
            Rp2040Reg::Uid5 => 29,
            Rp2040Reg::Uid6 => 30,
            Rp2040Reg::Uid7 => 31,
            Rp2040Reg::Scratch0 => 32,
            Rp2040Reg::Scratch1 => 33,
            Rp2040Reg::Scratch2 => 34,
            Rp2040Reg::Scratch3 => 35,
            Rp2040Reg::Scratch4 => 36,
            Rp2040Reg::Scratch5 => 37,
            Rp2040Reg::Scratch6 => 38,
            Rp2040Reg::Scratch7 => 39,
            Rp2040Reg::Scratch8 => 40,
            Rp2040Reg::Scratch9 => 41,
            Rp2040Reg::Scratch10 => 42,
            Rp2040Reg::Scratch11 => 43,
            Rp2040Reg::Scratch12 => 44,
            Rp2040Reg::Scratch13 => 45,
            Rp2040Reg::Scratch14 => 46,
            Rp2040Reg::Scratch15 => 47,
            Rp2040Reg::Scratch16 => 48,
            Rp2040Reg::Scratch17 => 49,
            Rp2040Reg::Scratch18 => 50,
            Rp2040Reg::Scratch19 => 51,
            Rp2040Reg::Scratch20 => 52,
            Rp2040Reg::Scratch21 => 53,
            Rp2040Reg::Scratch22 => 54,
            Rp2040Reg::Scratch23 => 55,
            Rp2040Reg::Scratch24 => 56,
            Rp2040Reg::Scratch25 => 57,
            Rp2040Reg::Scratch26 => 58,
            Rp2040Reg::Scratch27 => 59,
            Rp2040Reg::Scratch28 => 60,
            Rp2040Reg::Scratch29 => 61,
            Rp2040Reg::Scratch30 => 62,
            Rp2040Reg::Scratch31 => 63,
            Rp2040Reg::Scratch32 => 64,
            Rp2040Reg::Scratch33 => 65,
            Rp2040Reg::Scratch34 => 66,
            Rp2040Reg::Scratch35 => 67,
            Rp2040Reg::Scratch36 => 68,
            Rp2040Reg::Scratch37 => 69,
            Rp2040Reg::Scratch38 => 70,
            Rp2040Reg::Scratch39 => 71,
            Rp2040Reg::Scratch40 => 72,
            Rp2040Reg::Scratch41 => 73,
            Rp2040Reg::Scratch42 => 74,
            Rp2040Reg::Scratch43 => 75,
            Rp2040Reg::Scratch44 => 76,
            Rp2040Reg::Scratch45 => 77,
            Rp2040Reg::Scratch46 => 78,
            Rp2040Reg::Scratch47 => 79,
            Rp2040Reg::Scratch48 => 80,
            Rp2040Reg::Scratch49 => 81,
            Rp2040Reg::Scratch50 => 82,
            Rp2040Reg::Scratch51 => 83,
            Rp2040Reg::Scratch52 => 84,
            Rp2040Reg::Scratch53 => 85,
            Rp2040Reg::Scratch54 => 86,
            Rp2040Reg::Scratch55 => 87,
            Rp2040Reg::Scratch56 => 88,
            Rp2040Reg::Scratch57 => 89,
            Rp2040Reg::Scratch58 => 90,
            Rp2040Reg::Scratch59 => 91,
            Rp2040Reg::Scratch60 => 92,
            Rp2040Reg::Scratch61 => 93,
            Rp2040Reg::Scratch62 => 94,
            Rp2040Reg::Scratch63 => 95,
            Rp2040Reg::IrAddressLo => 96,
            Rp2040Reg::IrAddressHi => 97,
            Rp2040Reg::IrCommand => 98,
            Rp2040Reg::IrTrigger => 99,
            Rp2040Reg::Reserved11 => 100,
            Rp2040Reg::Reserved12 => 101,
            Rp2040Reg::Reserved13 => 102,
            Rp2040Reg::Reserved14 => 103,
            Rp2040Reg::Ws2812Mode => 104,
            Rp2040Reg::Ws2812Trigger => 105,
            Rp2040Reg::Ws2812Length => 106,
            Rp2040Reg::Ws2812Speed => 107,
            Rp2040Reg::Ws2812Led0Data0 => 108,
            Rp2040Reg::Ws2812Led0Data1 => 109,
            Rp2040Reg::Ws2812Led0Data2 => 110,
            Rp2040Reg::Ws2812Led0Data3 => 111,
            Rp2040Reg::Ws2812Led1Data0 => 112,
            Rp2040Reg::Ws2812Led1Data1 => 113,
            Rp2040Reg::Ws2812Led1Data2 => 114,
            Rp2040Reg::Ws2812Led1Data3 => 115,
            Rp2040Reg::Ws2812Led2Data0 => 116,
            Rp2040Reg::Ws2812Led2Data1 => 117,
            Rp2040Reg::Ws2812Led2Data2 => 118,
            Rp2040Reg::Ws2812Led2Data3 => 119,
            Rp2040Reg::Ws2812Led3Data0 => 120,
            Rp2040Reg::Ws2812Led3Data1 => 121,
            Rp2040Reg::Ws2812Led3Data2 => 122,
            Rp2040Reg::Ws2812Led3Data3 => 123,
            Rp2040Reg::Ws2812Led4Data0 => 124,
            Rp2040Reg::Ws2812Led4Data1 => 125,
            Rp2040Reg::Ws2812Led4Data2 => 126,
            Rp2040Reg::Ws2812Led4Data3 => 127,
            Rp2040Reg::Ws2812Led5Data0 => 128,
            Rp2040Reg::Ws2812Led5Data1 => 129,
            Rp2040Reg::Ws2812Led5Data2 => 130,
            Rp2040Reg::Ws2812Led5Data3 => 131,
            Rp2040Reg::Ws2812Led6Data0 => 132,
            Rp2040Reg::Ws2812Led6Data1 => 133,
            Rp2040Reg::Ws2812Led6Data2 => 134,
            Rp2040Reg::Ws2812Led6Data3 => 135,
            Rp2040Reg::Ws2812Led7Data0 => 136,
            Rp2040Reg::Ws2812Led7Data1 => 137,
            Rp2040Reg::Ws2812Led7Data2 => 138,
            Rp2040Reg::Ws2812Led7Data3 => 139,
            Rp2040Reg::Ws2812Led8Data0 => 140,
            Rp2040Reg::Ws2812Led8Data1 => 141,
            Rp2040Reg::Ws2812Led8Data2 => 142,
            Rp2040Reg::Ws2812Led8Data3 => 143,
            Rp2040Reg::Ws2812Led9Data0 => 144,
            Rp2040Reg::Ws2812Led9Data1 => 145,
            Rp2040Reg::Ws2812Led9Data2 => 146,
            Rp2040Reg::Ws2812Led9Data3 => 147,
            Rp2040Reg::MscControl => 148,
            Rp2040Reg::MscState => 149,
            Rp2040Reg::Msc0BlockCountLoA => 150,
            Rp2040Reg::Msc0BlockCountLoB => 151,
            Rp2040Reg::Msc0BlockCountLoC => 152,
            Rp2040Reg::Msc0BlockCountHi => 153,
            Rp2040Reg::Msc0BlockSizeLo => 154,
            Rp2040Reg::Msc0BlockSizeHi => 155,
            Rp2040Reg::Msc1BlockCountLoA => 156,
            Rp2040Reg::Msc1BlockCountLoB => 157,
            Rp2040Reg::Msc1BlockCountLoC => 158,
            Rp2040Reg::Msc1BlockCountHi => 159,
            Rp2040Reg::Msc1BlockSizeLo => 160,
            Rp2040Reg::Msc1BlockSizeHi => 161,
        }
    }
}

impl FromSpecImpl<Rp2040Reg> for u8 {
    open spec fn obeys_from_spec() -> bool {
        true
    }

    open spec fn from_spec(r: Rp2040Reg) -> u8 {
        r.address()
    }
}

} // verus!
