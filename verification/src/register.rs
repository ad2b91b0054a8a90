//! Register map of the ADS8681: nine 16-bit registers reached over SPI.
use vstd::prelude::*;

verus! {

/// Register addresses of the ADS8681.
///
/// The variants carry no explicit discriminants: `reg as u16` gives the
/// variant's position, not its address. `address()` gives the address.
#[derive(Debug, Clone, Copy, PartialEq, Eq)]
pub enum Register {
    /// Device ID register (read-only); holds 0x0681.
    DeviceId,
    /// Reset and power control; bit 15 triggers a software reset.
    RstPwrctl,
    /// SDI control.
    SdiCtl,
    /// SDO control.
    SdoCtl,
    /// Data output control.
    DataoutCtl,
    /// Range selection; bits 3..0 select the input range.
    RangeSel,
    /// Alarm configuration.
    Alarm,
    /// Alarm high threshold.
    AlarmHTh,
    /// Alarm low threshold.
    AlarmLTh,
}

/// Expected device ID value for ADS8681.
pub const DEVICE_ID: u16 = 0x0681;

/// Bit mask for software reset in the RST_PWRCTL register.
pub const RST_BIT: u16 = 0x8000;

/// Bit mask for range selection in the RANGE_SEL register.
pub const RANGE_MASK: u16 = 0x000F;

impl Register {
    /// The address of each register, as the register map lists it.
    pub open spec fn spec_address(self) -> u16 {
        match self {
            Register::DeviceId => 0x00,
            Register::RstPwrctl => 0x04,
            Register::SdiCtl => 0x08,
            Register::SdoCtl => 0x0C,
            Register::DataoutCtl => 0x10,
            Register::RangeSel => 0x14,
            Register::Alarm => 0x20,
            Register::AlarmHTh => 0x24,
            Register::AlarmLTh => 0x28,
        }
    }

    /// The register's name as the register map writes it.
    pub open spec fn spec_name(self) -> Seq<char> {
        match self {
            Register::DeviceId => "DEVICE_ID"@,
            Register::RstPwrctl => "RST_PWRCTL"@,
            Register::SdiCtl => "SDI_CTL"@,
            Register::SdoCtl => "SDO_CTL"@,
            Register::DataoutCtl => "DATAOUT_CTL"@,
            Register::RangeSel => "RANGE_SEL"@,
            Register::Alarm => "ALARM"@,
            Register::AlarmHTh => "ALARM_H_TH"@,
            Register::AlarmLTh => "ALARM_L_TH"@,
        }
    }

    /// Get the register address as a u16.
    #[verifier::when_used_as_spec(spec_address)]
    pub fn address(self) -> (r: u16)
        ensures
            r == self.spec_address(),
    {
        match self {
            Register::DeviceId => 0x00,
            Register::RstPwrctl => 0x04,
            Register::SdiCtl => 0x08,
            Register::SdoCtl => 0x0C,
            Register::DataoutCtl => 0x10,
            Register::RangeSel => 0x14,
            Register::Alarm => 0x20,
            Register::AlarmHTh => 0x24,
            Register::AlarmLTh => 0x28,
        }
    }

    /// Check if this register is read-only: only the device ID is.
    pub fn is_read_only(self) -> (r: bool)
        ensures
            r == (self == Register::DeviceId),
    {
        match self {
            Register::DeviceId => true,
            _ => false,
        }
    }

    /// Get the register name as a string.
    pub fn name(self) -> (r: &'static str)
        ensures
            r@ == self.spec_name(),
    {
        match self {
            Register::DeviceId => "DEVICE_ID",
            Register::RstPwrctl => "RST_PWRCTL",
            Register::SdiCtl => "SDI_CTL",
            Register::SdoCtl => "SDO_CTL",
            Register::DataoutCtl => "DATAOUT_CTL",
            Register::RangeSel => "RANGE_SEL",
            Register::Alarm => "ALARM",
            Register::AlarmHTh => "ALARM_H_TH",
            Register::AlarmLTh => "ALARM_L_TH",
        }
    }
}

/// Every register address fits the 9-bit address field of a frame, and no
/// two registers share an address.
pub proof fn lemma_register_addresses(a: Register, b: Register)
    ensures
        a.address() < 512,
        a.address() == b.address() ==> a == b,
{
}

/// The addresses are the register map's: DEVICE_ID 0x00, RST_PWRCTL 0x04,
/// SDI_CTL 0x08, SDO_CTL 0x0C, DATAOUT_CTL 0x10, RANGE_SEL 0x14, ALARM 0x20,
/// ALARM_H_TH 0x24, ALARM_L_TH 0x28; only DEVICE_ID is read-only, and every
/// address is a multiple of four.
pub proof fn lemma_register_map(reg: Register)
    ensures
        Register::DeviceId.address() == 0x00,
        Register::RstPwrctl.address() == 0x04,
        Register::SdiCtl.address() == 0x08,
        Register::SdoCtl.address() == 0x0C,
        Register::DataoutCtl.address() == 0x10,
        Register::RangeSel.address() == 0x14,
        Register::Alarm.address() == 0x20,
        Register::AlarmHTh.address() == 0x24,
        Register::AlarmLTh.address() == 0x28,
        reg.address() % 4 == 0,
        reg.address() <= 0x28,
{
}

} // verus!
