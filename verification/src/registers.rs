//! Contains constant register addresses. Each register's address is given by
//! a function of the register's name.
use vstd::prelude::*;
use crate::command::NineBitAddress;

verus! {

/// Value the WKEY field in the reset power control register should be set
/// to unlock the other fields.
pub const WKEY_VALUE: u8 = 0x69;

/// Device ID register (the device address is its third byte).
#[allow(non_snake_case)]
pub fn DEVICE_ID_REG() -> (r: NineBitAddress)
    ensures
        r@ == 0x00,
{
    NineBitAddress::register(0x00)
}

/// Reset and power control register.
#[allow(non_snake_case)]
pub fn RST_PWRCTL_REG() -> (r: NineBitAddress)
    ensures
        r@ == 0x04,
{
    NineBitAddress::register(0x04)
}

/// SDI data input control register.
#[allow(non_snake_case)]
pub fn SDI_CTL_REG() -> (r: NineBitAddress)
    ensures
        r@ == 0x08,
{
    NineBitAddress::register(0x08)
}

/// SDO data output control register.
#[allow(non_snake_case)]
pub fn SDO_CTL_REG() -> (r: NineBitAddress)
    ensures
        r@ == 0x0C,
{
    NineBitAddress::register(0x0C)
}

/// Output data word control register.
#[allow(non_snake_case)]
pub fn DATAOUT_CTL_REG() -> (r: NineBitAddress)
    ensures
        r@ == 0x10,
{
    NineBitAddress::register(0x10)
}

/// Input range selection register.
#[allow(non_snake_case)]
pub fn RANGE_SEL_REG() -> (r: NineBitAddress)
    ensures
        r@ == 0x14,
{
    NineBitAddress::register(0x14)
}

/// Alarm output register.
#[allow(non_snake_case)]
pub fn ALARM_REG() -> (r: NineBitAddress)
    ensures
        r@ == 0x20,
{
    NineBitAddress::register(0x20)
}

/// Alarm high threshold register (the hysteresis is its fourth byte).
#[allow(non_snake_case)]
pub fn ALARM_H_TH_REG() -> (r: NineBitAddress)
    ensures
        r@ == 0x24,
{
    NineBitAddress::register(0x24)
}

/// Alarm low threshold register.
#[allow(non_snake_case)]
pub fn ALARM_L_TH_REG() -> (r: NineBitAddress)
    ensures
        r@ == 0x28,
{
    NineBitAddress::register(0x28)
}

} // verus!
