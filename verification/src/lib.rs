//! Verified core of a driver for the Texas Instruments ADS8681 analog-to-digital
//! converter: the device's register layouts, the 32-bit command frames that are
//! clocked into it, the decoding of the 32-bit output data words that it clocks
//! out, and the sequence of commands behind each register access of the driver.
//!
//! The bus itself (SPI transfers and the RVS pin) is left to the caller, who
//! performs the commands that this library plans and hands the replies back.
#![allow(unused_imports)]

pub mod bits;
pub mod command;
pub mod config;
pub mod driver;
pub mod fields;
pub mod output;
pub mod registers;

pub use command::{CommandBits, InputCommand, NineBitAddress};
pub use config::{
    Alarm, AlarmBuilder, DataOutCtl, DataOutCtlBuilder, RangeSel, RangeSelBuilder, RstPwrCtrl,
    RstPwrCtrlBuilder, SdiMode, SdiModeBuilder, SdoCtl, SdoCtlBuilder,
};
pub use driver::{
    run, Ads8681Error, Ads8681Request, Ads8681Response, CommandInterface, WaitModeFeatures,
};
pub use fields::{AdcInputRanges, DataVal, ResetPinFunction, Sdo1Mode, SdoMode};
pub use output::{DeviceAddress, InterpretedOutputDataWord, OutputDataWord};
