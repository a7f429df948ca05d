//! The driver's register accesses, planned as the commands that each one
//! clocks into the device and the decoding of the output data word that the
//! device clocks out after the last of them. The bus work itself is done by an
//! implementor of [`CommandInterface`].
use vstd::prelude::*;
use crate::bits::{field16, field8};
use crate::command::{spec_frame, CommandBits, InputCommand, NineBitAddress};
use crate::config::{Alarm, DataOutCtl, RangeSel, RstPwrCtrl, SdiMode, SdoCtl};
use crate::fields::{AdcInputRanges, DataVal, SdoMode};
use crate::output::{DeviceAddress, OutputDataWord};
use crate::registers::{
    ALARM_H_TH_REG, ALARM_L_TH_REG, ALARM_REG, DATAOUT_CTL_REG, DEVICE_ID_REG, RANGE_SEL_REG,
    RST_PWRCTL_REG, SDI_CTL_REG, SDO_CTL_REG, WKEY_VALUE,
};

verus! {

/// Implementations for the ways of waiting on the RVS pin, which are sync/async
/// dependent.
pub trait WaitModeFeatures {
    /// An error that occurs while accessing the RVS pin
    type WaitError;

    /// Wait until the RVS pin is high. Returns true if an spi operation delay
    /// should be issued to the driver.
    fn wait_for_rvs(&mut self) -> Result<bool, Self::WaitError>;
}

/// An error from the Ads8681 driver.
#[non_exhaustive]
#[derive(Debug, Clone, PartialEq, Eq)]
pub enum Ads8681Error<SPIERROR, PINERROR> {
    /// Error that occurs while operating the spi interface.
    SpiInduced(SPIERROR),
    /// Error that occurs while accessing the RVS pin. This variant can
    /// be ignored if you are not using an RVS pin.
    RvsInduced(PINERROR),
}

/// The reply an exchange gave: the output data word, or nothing when it failed.
pub open spec fn reply_of<E>(r: Result<OutputDataWord, E>) -> Option<OutputDataWord> {
    match r {
        Ok(word) => Some(word),
        Err(_) => None,
    }
}

/// Whether the exchanges `after` are the exchanges `before` followed by one
/// more, of a command with the given code, byte address and value bits.
pub open spec fn one_more_exchange(
    before: Seq<(InputCommand, Option<OutputDataWord>)>,
    after: Seq<(InputCommand, Option<OutputDataWord>)>,
    command: (CommandBits, u8, u16),
) -> bool {
    &&& after.len() == before.len() + 1
    &&& after.subrange(0, before.len() as int) == before
    &&& after.last().0@ == command
}

/// Interface for input and output commands from the Ads8681. An implementor
/// supplies the bus work: waiting on the RVS pin, and exchanging one command
/// for the output data word that follows it. The commands themselves are
/// provided on top of that exchange.
///
/// An implementor verified against this trait keeps, as its specification
/// state, the exchanges made so far: each command handed to `exchange` with
/// the output data word it gave back, or nothing when it failed; it says so by
/// `keeps_exchanges`. The contracts that speak of the exchanges hold for such
/// implementors.
pub trait CommandInterface {
    /// The error type from the underlying driver.
    type Error;

    /// Whether the implementor keeps the record of its exchanges; none does
    /// unless it says so.
    open spec fn keeps_exchanges() -> bool {
        false
    }

    /// The exchanges made so far, oldest first: each command handed to
    /// `exchange` with its reply (nothing when the exchange failed).
    open spec fn exchanges(&self) -> Seq<(InputCommand, Option<OutputDataWord>)> {
        Seq::empty()
    }

    /// Wait until the RVS pin is high.
    fn wait_for_rvs(&mut self) -> Result<(), Self::Error>;

    /// Clocks in the frame of `command`, waits for the RVS pin, and returns
    /// the output data word clocked out after it. The exchange is recorded
    /// with its reply.
    fn exchange(&mut self, command: InputCommand) -> (r: Result<OutputDataWord, Self::Error>)
        ensures
            Self::keeps_exchanges() ==> final(self).exchanges() == old(self).exchanges().push(
                (command, reply_of(r)),
            ),
    ;

    /// Send a NOOP spi message: exchanges the no-operation command and gives
    /// back its reply.
    fn noop(&mut self) -> (r: Result<OutputDataWord, Self::Error>)
        ensures
            Self::keeps_exchanges() ==> one_more_exchange(
                old(self).exchanges(),
                final(self).exchanges(),
                (CommandBits::Noop, 0u8, 0u16),
            ),
            Self::keeps_exchanges() ==> final(self).exchanges().last().1 == reply_of(r),
    {
        let r = self.exchange(InputCommand::noop());
        proof {
            if Self::keeps_exchanges() {
                assert(final(self).exchanges().subrange(0, old(self).exchanges().len() as int)
                    =~= old(self).exchanges());
            }
        }
        r
    }

    /// Clear an hword at the given address. All bits marked 1 in the
    /// clear_bit_mask are cleared (reset to 0) with other bits unchanged.
    fn clear_hword(&mut self, addr: NineBitAddress, clear_bit_mask: u16) -> (r: Result<
        OutputDataWord,
        Self::Error,
    >)
        ensures
            Self::keeps_exchanges() ==> one_more_exchange(
                old(self).exchanges(),
                final(self).exchanges(),
                (CommandBits::ClearHword, addr@, clear_bit_mask),
            ),
            Self::keeps_exchanges() ==> final(self).exchanges().last().1 == reply_of(r),
    {
        let r = self.exchange(InputCommand::clear_hword(addr, clear_bit_mask));
        proof {
            if Self::keeps_exchanges() {
                assert(final(self).exchanges().subrange(0, old(self).exchanges().len() as int)
                    =~= old(self).exchanges());
            }
        }
        r
    }

    /// Read an hword from the given address: the first two bytes of the
    /// reply to a half-word read, most significant first.
    fn read_hword(&mut self, addr: NineBitAddress) -> (r: Result<u16, Self::Error>)
        ensures
            Self::keeps_exchanges() ==> one_more_exchange(
                old(self).exchanges(),
                final(self).exchanges(),
                (CommandBits::ReadHword, addr@, 0u16),
            ),
            Self::keeps_exchanges() ==> match r {
                Ok(v) => final(self).exchanges().last().1 matches Some(w) && v
                    == w.spec_register_hword(),
                Err(_) => final(self).exchanges().last().1 is None,
            },
    {
        let r = match self.exchange(InputCommand::read_hword(addr)) {
            Ok(word) => Ok(word.register_hword()),
            Err(e) => Err(e),
        };
        proof {
            if Self::keeps_exchanges() {
                assert(final(self).exchanges().subrange(0, old(self).exchanges().len() as int)
                    =~= old(self).exchanges());
            }
        }
        r
    }

    /// Read a u8 from the given address: the first byte of the reply to a
    /// byte read.
    fn read(&mut self, addr: NineBitAddress) -> (r: Result<u8, Self::Error>)
        ensures
            Self::keeps_exchanges() ==> one_more_exchange(
                old(self).exchanges(),
                final(self).exchanges(),
                (CommandBits::Read, addr@, 0u16),
            ),
            Self::keeps_exchanges() ==> match r {
                Ok(v) => final(self).exchanges().last().1 matches Some(w) && v == w.0[0],
                Err(_) => final(self).exchanges().last().1 is None,
            },
    {
        let r = match self.exchange(InputCommand::read(addr)) {
            Ok(word) => Ok(word.register_byte()),
            Err(e) => Err(e),
        };
        proof {
            if Self::keeps_exchanges() {
                assert(final(self).exchanges().subrange(0, old(self).exchanges().len() as int)
                    =~= old(self).exchanges());
            }
        }
        r
    }

    /// Write an hword to the given address.
    fn write_hword(&mut self, addr: NineBitAddress, value: u16) -> (r: Result<
        OutputDataWord,
        Self::Error,
    >)
        ensures
            Self::keeps_exchanges() ==> one_more_exchange(
                old(self).exchanges(),
                final(self).exchanges(),
                (CommandBits::WriteHword, addr@, value),
            ),
            Self::keeps_exchanges() ==> final(self).exchanges().last().1 == reply_of(r),
    {
        let r = self.exchange(InputCommand::write_hword(addr, value));
        proof {
            if Self::keeps_exchanges() {
                assert(final(self).exchanges().subrange(0, old(self).exchanges().len() as int)
                    =~= old(self).exchanges());
            }
        }
        r
    }

    /// Write the most significant byte of the given value to the given register.
    /// The least significant byte is ignored.
    fn write_hword_ms(&mut self, addr: NineBitAddress, ls_ignored: u16) -> (r: Result<
        OutputDataWord,
        Self::Error,
    >)
        ensures
            Self::keeps_exchanges() ==> one_more_exchange(
                old(self).exchanges(),
                final(self).exchanges(),
                (CommandBits::WriteHwordMs, addr@, ls_ignored),
            ),
            Self::keeps_exchanges() ==> final(self).exchanges().last().1 == reply_of(r),
    {
        let r = self.exchange(InputCommand::write_hword_ms(addr, ls_ignored));
        proof {
            if Self::keeps_exchanges() {
                assert(final(self).exchanges().subrange(0, old(self).exchanges().len() as int)
                    =~= old(self).exchanges());
            }
        }
        r
    }

    /// Write the least significant byte of the given value to the given register.
    /// The most significant byte is ignored.
    fn write_hword_ls(&mut self, addr: NineBitAddress, ms_ignored: u16) -> (r: Result<
        OutputDataWord,
        Self::Error,
    >)
        ensures
            Self::keeps_exchanges() ==> one_more_exchange(
                old(self).exchanges(),
                final(self).exchanges(),
                (CommandBits::WriteHwordLs, addr@, ms_ignored),
            ),
            Self::keeps_exchanges() ==> final(self).exchanges().last().1 == reply_of(r),
    {
        let r = self.exchange(InputCommand::write_hword_ls(addr, ms_ignored));
        proof {
            if Self::keeps_exchanges() {
                assert(final(self).exchanges().subrange(0, old(self).exchanges().len() as int)
                    =~= old(self).exchanges());
            }
        }
        r
    }

    /// Set all bits with the mask marked as 1 as 1, leaving other bits unchanged.
    fn set_hword(&mut self, addr: NineBitAddress, write_bit_mask: u16) -> (r: Result<
        OutputDataWord,
        Self::Error,
    >)
        ensures
            Self::keeps_exchanges() ==> one_more_exchange(
                old(self).exchanges(),
                final(self).exchanges(),
                (CommandBits::SetHword, addr@, write_bit_mask),
            ),
            Self::keeps_exchanges() ==> final(self).exchanges().last().1 == reply_of(r),
    {
        let r = self.exchange(InputCommand::set_hword(addr, write_bit_mask));
        proof {
            if Self::keeps_exchanges() {
                assert(final(self).exchanges().subrange(0, old(self).exchanges().len() as int)
                    =~= old(self).exchanges());
            }
        }
        r
    }
}

/// A register access of the driver.
#[derive(Debug, Clone, Copy, PartialEq, Eq, Structural)]
pub enum Ads8681Request {
    /// Send a noop command to get an output data word.
    GetDataOutput,
    /// Set the 4 bit device address. Useful for daisy chaining.
    SetDeviceAddress(DeviceAddress),
    /// Get the 4 bit device address used for daisy chaining.
    GetDeviceAddress,
    /// Get the value of the reset power control register (without the WKEY field).
    GetRstPwrCtrl,
    /// Set the reset power control register, unlocking it with the WKEY field
    /// first and locking it again afterwards.
    SetRstPwrCtrl(RstPwrCtrl),
    /// Get the SDI pin configuration.
    GetSdiCtl,
    /// Set the SDI pin configuration.
    SetSdiCtl(SdiMode),
    /// Get the SDO pin configuration.
    GetSdoCtl,
    /// Set the SDO pin configuration.
    SetSdoCtl(SdoCtl),
    /// Get the contents of the data out control register.
    GetDataoutCtl,
    /// Set the data out control register, which changes how output data
    /// words are encoded.
    SetDataoutCtl(DataOutCtl),
    /// Get the ADC range selection.
    GetRangeSel,
    /// Set the ADC range selection.
    SetRangeSel(RangeSel),
    /// Get the alarm flags.
    GetAlarm,
    /// Get the alarm hysteresis value.
    GetAlarmHysteresis,
    /// Set the alarm hysteresis value.
    SetAlarmHysteresis(u8),
    /// Get the high-end threshold for the input voltage alarm.
    GetInpAlarmHighThreshold,
    /// Set the high-end threshold for the input voltage alarm.
    SetInpAlarmHighThreshold(u16),
    /// Get the low-end threshold for the input voltage alarm.
    GetInpAlarmLowThreshold,
    /// Set the low-end threshold for the input voltage alarm.
    SetInpAlarmLowThreshold(u16),
}

/// What a register access gives back.
#[derive(Debug, Clone, Copy)]
pub enum Ads8681Response {
    /// The output data word clocked out after the last command.
    DataOutput(OutputDataWord),
    /// The device address read.
    DeviceAddress(DeviceAddress),
    /// The reset power control register read.
    RstPwrCtrl(RstPwrCtrl),
    /// The SDI control register read.
    SdiMode(SdiMode),
    /// The SDO control register read.
    SdoCtl(SdoCtl),
    /// The data out control register read.
    DataOutCtl(DataOutCtl),
    /// The range selection register read.
    RangeSel(RangeSel),
    /// The alarm register read.
    Alarm(Alarm),
    /// A byte read.
    Byte(u8),
    /// A half word read.
    Hword(u16),
}

/// The bytes of a register that a write command stores, in the order a read
/// of the same register returns them: both bytes of the value for a half-word
/// write, its low byte for a write of the least significant byte, its high
/// byte for a write of the most significant byte.
pub open spec fn stored_bytes(command: (CommandBits, u8, u16)) -> Seq<u8> {
    let v = command.2;
    match command.0 {
        CommandBits::WriteHword => seq![(v / 256) as u8, (v % 256) as u8],
        CommandBits::WriteHwordLs => seq![(v % 256) as u8],
        CommandBits::WriteHwordMs => seq![(v / 256) as u8],
        _ => Seq::empty(),
    }
}

/// The device byte address where a write command stores its first byte. The
/// least significant bit of the address is ignored by half-word writes; the
/// least significant byte of a half word sits at its even address and the
/// most significant byte at the odd one.
pub open spec fn written_byte_address(command: (CommandBits, u8, u16)) -> int {
    let a = command.1 as int;
    match command.0 {
        CommandBits::WriteHwordMs => a - a % 2 + 1,
        _ => a - a % 2,
    }
}

/// The device byte address from which a read command returns its first byte:
/// the address itself for a byte read, the half word's even address for a
/// half-word read.
pub open spec fn read_byte_address(command: (CommandBits, u8, u16)) -> int {
    let a = command.1 as int;
    match command.0 {
        CommandBits::Read => a,
        _ => a - a % 2,
    }
}

/// How many bytes of the register a read command returns.
pub open spec fn read_width(command: CommandBits) -> nat {
    match command {
        CommandBits::ReadHword => 2,
        CommandBits::Read => 1,
        _ => 0,
    }
}

/// Whether the output data word begins with the given register bytes.
pub open spec fn carries(reply: OutputDataWord, bytes: Seq<u8>) -> bool {
    &&& bytes.len() <= 4
    &&& forall|i: int| 0 <= i < bytes.len() ==> reply.0[i] == bytes[i]
}

impl Ads8681Request {
    /// The commands clocked in, in order, each as its code, byte address and
    /// value bits. The device address is the third byte of the device ID
    /// register (0x02); the alarm hysteresis the fourth byte of the alarm high
    /// threshold register (0x27).
    pub open spec fn spec_commands(self) -> Seq<(CommandBits, u8, u16)> {
        match self {
            Ads8681Request::GetDataOutput => seq![(CommandBits::Noop, 0x00u8, 0u16)],
            Ads8681Request::SetDeviceAddress(a) => seq![
                (CommandBits::WriteHwordLs, 0x02u8, a.0 as u16),
            ],
            Ads8681Request::GetDeviceAddress => seq![(CommandBits::Read, 0x02u8, 0u16)],
            Ads8681Request::GetRstPwrCtrl => seq![(CommandBits::Read, 0x04u8, 0u16)],
            Ads8681Request::SetRstPwrCtrl(v) => seq![
                (CommandBits::WriteHwordMs, 0x04u8, 0x6900u16),
                (CommandBits::WriteHwordLs, 0x04u8, v@ as u16),
                (CommandBits::WriteHwordMs, 0x04u8, 0u16),
            ],
            Ads8681Request::GetSdiCtl => seq![(CommandBits::Read, 0x08u8, 0u16)],
            Ads8681Request::SetSdiCtl(m) => seq![(CommandBits::WriteHwordLs, 0x08u8, m@ as u16)],
            Ads8681Request::GetSdoCtl => seq![(CommandBits::ReadHword, 0x0Cu8, 0u16)],
            Ads8681Request::SetSdoCtl(c) => seq![(CommandBits::WriteHword, 0x0Cu8, c@)],
            Ads8681Request::GetDataoutCtl => seq![(CommandBits::ReadHword, 0x10u8, 0u16)],
            Ads8681Request::SetDataoutCtl(c) => seq![(CommandBits::WriteHword, 0x10u8, c@)],
            Ads8681Request::GetRangeSel => seq![(CommandBits::Read, 0x14u8, 0u16)],
            Ads8681Request::SetRangeSel(r) => seq![
                (CommandBits::WriteHwordLs, 0x14u8, r@ as u16),
            ],
            Ads8681Request::GetAlarm => seq![(CommandBits::ReadHword, 0x20u8, 0u16)],
            Ads8681Request::GetAlarmHysteresis => seq![(CommandBits::Read, 0x27u8, 0u16)],
            Ads8681Request::SetAlarmHysteresis(h) => seq![
                (CommandBits::WriteHwordMs, 0x27u8, (h as int * 256) as u16),
            ],
            Ads8681Request::GetInpAlarmHighThreshold => seq![
                (CommandBits::ReadHword, 0x24u8, 0u16),
            ],
            Ads8681Request::SetInpAlarmHighThreshold(t) => seq![
                (CommandBits::WriteHword, 0x24u8, t),
            ],
            Ads8681Request::GetInpAlarmLowThreshold => seq![
                (CommandBits::ReadHword, 0x28u8, 0u16),
            ],
            Ads8681Request::SetInpAlarmLowThreshold(t) => seq![
                (CommandBits::WriteHword, 0x28u8, t),
            ],
        }
    }

    /// Whether the output data word clocked out after the last command can be
    /// decoded: a range selection read must return the code of one of the
    /// listed input ranges.
    pub open spec fn reply_decodable(self, reply: OutputDataWord) -> bool {
        match self {
            Ads8681Request::GetRangeSel => AdcInputRanges::is_valid_bits(
                field8(reply.0[0], 0, 4),
            ),
            _ => true,
        }
    }

    /// Whether `resp` is what the access gives back when `reply` is the output
    /// data word clocked out after its last command: a write or a noop gives
    /// the word itself, a byte read the first byte, a half-word read the first
    /// two bytes, decoded as the register's value.
    pub open spec fn is_response(self, reply: OutputDataWord, resp: Ads8681Response) -> bool {
        let byte = reply.0[0];
        let hword = reply.spec_register_hword();
        match self {
            Ads8681Request::GetDeviceAddress => resp == Ads8681Response::DeviceAddress(
                DeviceAddress(byte),
            ),
            Ads8681Request::GetRstPwrCtrl => resp matches Ads8681Response::RstPwrCtrl(v) && v@
                == RstPwrCtrl::canonical_bits(byte),
            Ads8681Request::GetSdiCtl => resp matches Ads8681Response::SdiMode(v) && v@
                == SdiMode::canonical_bits(byte),
            Ads8681Request::GetSdoCtl => resp matches Ads8681Response::SdoCtl(v) && v@
                == SdoCtl::canonical_bits(hword),
            Ads8681Request::GetDataoutCtl => resp matches Ads8681Response::DataOutCtl(v) && v@
                == DataOutCtl::canonical_bits(hword),
            Ads8681Request::GetRangeSel => resp matches Ads8681Response::RangeSel(v) && v@
                == RangeSel::canonical_bits(byte),
            Ads8681Request::GetAlarm => resp matches Ads8681Response::Alarm(v) && v@
                == Alarm::canonical_bits(hword),
            Ads8681Request::GetAlarmHysteresis => resp == Ads8681Response::Byte(byte),
            Ads8681Request::GetInpAlarmHighThreshold => resp == Ads8681Response::Hword(hword),
            Ads8681Request::GetInpAlarmLowThreshold => resp == Ads8681Response::Hword(hword),
            _ => resp == Ads8681Response::DataOutput(reply),
        }
    }

    /// The commands to clock in, in order; every access clocks in at least
    /// one.
    pub fn commands(&self) -> (r: Vec<InputCommand>)
        ensures
            r.len() == self.spec_commands().len(),
            r.len() >= 1,
            forall|i: int| 0 <= i < r.len() ==> #[trigger] r[i]@ == self.spec_commands()[i],
    {
        let mut r: Vec<InputCommand> = Vec::new();
        match *self {
            Ads8681Request::GetDataOutput => {
                r.push(InputCommand::noop());
            },
            Ads8681Request::SetDeviceAddress(address) => {
                let reg = DEVICE_ID_REG().one_byte_higher().one_byte_higher();
                r.push(InputCommand::write_hword_ls(reg, address.0 as u16));
            },
            Ads8681Request::GetDeviceAddress => {
                let reg = DEVICE_ID_REG().one_byte_higher().one_byte_higher();
                r.push(InputCommand::read(reg));
            },
            Ads8681Request::GetRstPwrCtrl => {
                r.push(InputCommand::read(RST_PWRCTL_REG()));
            },
            Ads8681Request::SetRstPwrCtrl(value) => {
                // write WKEY first to allow writes to other bits
                r.push(InputCommand::write_hword_ms(RST_PWRCTL_REG(), (WKEY_VALUE as u16) << 8u16));
                // write value
                r.push(InputCommand::write_hword_ls(RST_PWRCTL_REG(), value.into_bits() as u16));
                // write 0 to WKEY to lock it
                r.push(InputCommand::write_hword_ms(RST_PWRCTL_REG(), 0));
            },
            Ads8681Request::GetSdiCtl => {
                r.push(InputCommand::read(SDI_CTL_REG()));
            },
            Ads8681Request::SetSdiCtl(mode) => {
                r.push(InputCommand::write_hword_ls(SDI_CTL_REG(), mode.into_bits() as u16));
            },
            Ads8681Request::GetSdoCtl => {
                r.push(InputCommand::read_hword(SDO_CTL_REG()));
            },
            Ads8681Request::SetSdoCtl(sdo_config) => {
                r.push(InputCommand::write_hword(SDO_CTL_REG(), sdo_config.into_bits()));
            },
            Ads8681Request::GetDataoutCtl => {
                r.push(InputCommand::read_hword(DATAOUT_CTL_REG()));
            },
            Ads8681Request::SetDataoutCtl(dataout_ctl) => {
                r.push(InputCommand::write_hword(DATAOUT_CTL_REG(), dataout_ctl.into_bits()));
            },
            Ads8681Request::GetRangeSel => {
                r.push(InputCommand::read(RANGE_SEL_REG()));
            },
            Ads8681Request::SetRangeSel(range_sel) => {
                r.push(InputCommand::write_hword_ls(RANGE_SEL_REG(), range_sel.into_bits() as u16));
            },
            Ads8681Request::GetAlarm => {
                r.push(InputCommand::read_hword(ALARM_REG()));
            },
            Ads8681Request::GetAlarmHysteresis => {
                let reg = ALARM_H_TH_REG().one_byte_higher().one_byte_higher().one_byte_higher();
                r.push(InputCommand::read(reg));
            },
            Ads8681Request::SetAlarmHysteresis(hysteresis) => {
                let reg = ALARM_H_TH_REG().one_byte_higher().one_byte_higher().one_byte_higher();
                proof {
                    assert((hysteresis as u16) << 8u16 == (hysteresis as int * 256) as u16)
                        by (bit_vector);
                }
                r.push(InputCommand::write_hword_ms(reg, (hysteresis as u16) << 8u16));
            },
            Ads8681Request::GetInpAlarmHighThreshold => {
                r.push(InputCommand::read_hword(ALARM_H_TH_REG()));
            },
            Ads8681Request::SetInpAlarmHighThreshold(threshold) => {
                r.push(InputCommand::write_hword(ALARM_H_TH_REG(), threshold));
            },
            Ads8681Request::GetInpAlarmLowThreshold => {
                r.push(InputCommand::read_hword(ALARM_L_TH_REG()));
            },
            Ads8681Request::SetInpAlarmLowThreshold(threshold) => {
                r.push(InputCommand::write_hword(ALARM_L_TH_REG(), threshold));
            },
        }
        proof {
            assert((WKEY_VALUE as u16) << 8u16 == 0x6900u16) by (bit_vector);
        }
        r
    }

    /// Whether the output data word clocked out after the last command can be
    /// decoded.
    pub fn accepts_reply(&self, reply: &OutputDataWord) -> (r: bool)
        ensures
            r == self.reply_decodable(*reply),
    {
        match *self {
            Ads8681Request::GetRangeSel => {
                let code = crate::bits::get_field8(reply.0[0], 0, 4);
                code <= 4 || (8 <= code && code <= 11)
            },
            _ => true,
        }
    }

    /// What the access gives back, given the output data word clocked out
    /// after its last command.
    pub fn response(&self, reply: OutputDataWord) -> (r: Ads8681Response)
        requires
            self.reply_decodable(reply),
        ensures
            self.is_response(reply, r),
    {
        match *self {
            Ads8681Request::GetDeviceAddress => Ads8681Response::DeviceAddress(
                DeviceAddress(reply.register_byte()),
            ),
            Ads8681Request::GetRstPwrCtrl => Ads8681Response::RstPwrCtrl(
                RstPwrCtrl::from_bits(reply.register_byte()),
            ),
            Ads8681Request::GetSdiCtl => Ads8681Response::SdiMode(
                SdiMode::from_bits(reply.register_byte()),
            ),
            Ads8681Request::GetSdoCtl => Ads8681Response::SdoCtl(
                SdoCtl::from_bits(reply.register_hword()),
            ),
            Ads8681Request::GetDataoutCtl => Ads8681Response::DataOutCtl(
                DataOutCtl::from_bits(reply.register_hword()),
            ),
            Ads8681Request::GetRangeSel => Ads8681Response::RangeSel(
                RangeSel::from_bits(reply.register_byte()),
            ),
            Ads8681Request::GetAlarm => Ads8681Response::Alarm(
                Alarm::from_bits(reply.register_hword()),
            ),
            Ads8681Request::GetAlarmHysteresis => Ads8681Response::Byte(reply.register_byte()),
            Ads8681Request::GetInpAlarmHighThreshold => Ads8681Response::Hword(
                reply.register_hword(),
            ),
            Ads8681Request::GetInpAlarmLowThreshold => Ads8681Response::Hword(
                reply.register_hword(),
            ),
            _ => Ads8681Response::DataOutput(reply),
        }
    }
}

impl Ads8681Request {
    /// The access that reads back the register that this access writes.
    pub open spec fn readback(self) -> Option<Ads8681Request> {
        match self {
            Ads8681Request::SetDeviceAddress(_) => Some(Ads8681Request::GetDeviceAddress),
            Ads8681Request::SetRstPwrCtrl(_) => Some(Ads8681Request::GetRstPwrCtrl),
            Ads8681Request::SetSdiCtl(_) => Some(Ads8681Request::GetSdiCtl),
            Ads8681Request::SetSdoCtl(_) => Some(Ads8681Request::GetSdoCtl),
            Ads8681Request::SetDataoutCtl(_) => Some(Ads8681Request::GetDataoutCtl),
            Ads8681Request::SetRangeSel(_) => Some(Ads8681Request::GetRangeSel),
            Ads8681Request::SetAlarmHysteresis(_) => Some(Ads8681Request::GetAlarmHysteresis),
            Ads8681Request::SetInpAlarmHighThreshold(_) => Some(
                Ads8681Request::GetInpAlarmHighThreshold,
            ),
            Ads8681Request::SetInpAlarmLowThreshold(_) => Some(
                Ads8681Request::GetInpAlarmLowThreshold,
            ),
            _ => None,
        }
    }

    /// The position, among the commands of a write access, of the command
    /// that writes the value: the second for the reset power control register
    /// (between unlocking and locking it), the first otherwise.
    pub open spec fn value_command(self) -> int {
        match self {
            Ads8681Request::SetRstPwrCtrl(_) => 1,
            _ => 0,
        }
    }

    /// Whether the register value that a write access carries is valid.
    pub open spec fn writes_valid_value(self) -> bool {
        match self {
            Ads8681Request::SetSdoCtl(v) => v.wf(),
            Ads8681Request::SetDataoutCtl(v) => v.wf(),
            Ads8681Request::SetRangeSel(v) => v.wf(),
            _ => true,
        }
    }

    /// Whether `resp`, the result of a read access, gives back the value that
    /// this write access writes.
    pub open spec fn answers(self, resp: Ads8681Response) -> bool {
        match self {
            Ads8681Request::SetDeviceAddress(a) => resp == Ads8681Response::DeviceAddress(a),
            Ads8681Request::SetRstPwrCtrl(v) => resp matches Ads8681Response::RstPwrCtrl(w)
                && w@ == v@,
            Ads8681Request::SetSdiCtl(v) => resp matches Ads8681Response::SdiMode(w) && w@ == v@,
            Ads8681Request::SetSdoCtl(v) => resp matches Ads8681Response::SdoCtl(w) && w@ == v@,
            Ads8681Request::SetDataoutCtl(v) => resp matches Ads8681Response::DataOutCtl(w) && w@
                == v@,
            Ads8681Request::SetRangeSel(v) => resp matches Ads8681Response::RangeSel(w) && w@
                == v@,
            Ads8681Request::SetAlarmHysteresis(h) => resp == Ads8681Response::Byte(h),
            Ads8681Request::SetInpAlarmHighThreshold(t) => resp == Ads8681Response::Hword(t),
            Ads8681Request::SetInpAlarmLowThreshold(t) => resp == Ads8681Response::Hword(t),
            _ => false,
        }
    }
}

/// Reading back a written register. For every access that writes a register
/// value: the matching read access is a single command that reads the address
/// of the command writing the value, as many bytes as that command stores;
/// and when the device clocks out those stored bytes in reply, the read access
/// gives back exactly the value written.
pub proof fn lemma_read_back_after_write(
    set: Ads8681Request,
    reply: OutputDataWord,
    resp: Ads8681Response,
)
    requires
        set.readback() is Some,
        set.writes_valid_value(),
        carries(reply, stored_bytes(set.spec_commands()[set.value_command()])),
        set.readback()->0.is_response(reply, resp),
    ensures
        set.answers(resp),
        set.readback()->0.spec_commands().len() == 1,
        set.readback()->0.spec_commands()[0].1 == set.spec_commands()[set.value_command()].1,
        read_byte_address(set.readback()->0.spec_commands()[0]) == written_byte_address(
            set.spec_commands()[set.value_command()],
        ),
        read_width(set.readback()->0.spec_commands()[0].0) == stored_bytes(
            set.spec_commands()[set.value_command()],
        ).len(),
{
    let bytes = stored_bytes(set.spec_commands()[set.value_command()]);
    assert(forall|i: int| 0 <= i < bytes.len() ==> reply.0[i] == bytes[i]);
    if bytes.len() >= 1 {
        assert(reply.0[0] == bytes[0]);
    }
    if bytes.len() >= 2 {
        assert(reply.0[1] == bytes[1]);
    }
    match set {
        Ads8681Request::SetSdoCtl(v) => {
            SdoCtl::lemma_canonical_bits(v@);
        },
        Ads8681Request::SetDataoutCtl(v) => {
            DataOutCtl::lemma_canonical_bits(v@);
        },
        _ => {},
    }
}

impl Ads8681Request {
    /// Whether the exchanges `after` are the exchanges `before` followed by a
    /// run of this access that ended in `r`: its commands in order, each but
    /// the last answered, stopping at the first exchange that failed (then
    /// `r` is that error); when every command was answered, `r` holds the
    /// decoding of the last reply, or nothing when that reply cannot be
    /// decoded.
    pub open spec fn ran<E>(
        self,
        before: Seq<(InputCommand, Option<OutputDataWord>)>,
        after: Seq<(InputCommand, Option<OutputDataWord>)>,
        r: Result<Option<Ads8681Response>, E>,
    ) -> bool {
        let commands = self.spec_commands();
        let n = after.len() - before.len();
        &&& before.len() < after.len()
        &&& n <= commands.len()
        &&& after.subrange(0, before.len() as int) == before
        &&& forall|i: int| 0 <= i < n ==> (#[trigger] after[before.len() + i]).0@ == commands[i]
        &&& forall|i: int| 0 <= i < n - 1 ==> (#[trigger] after[before.len() + i]).1 is Some
        &&& match r {
            Ok(decoded) => {
                &&& n == commands.len()
                &&& after.last().1 matches Some(w) && match decoded {
                    Some(resp) => self.reply_decodable(w) && self.is_response(w, resp),
                    None => !self.reply_decodable(w),
                }
            },
            Err(_) => after.last().1 is None,
        }
    }
}

/// Runs a register access over an interface: exchanges its commands in order,
/// stopping at the first exchange that fails, and decodes the output data
/// word clocked out after the last command. Gives `Ok(None)` when that word
/// cannot be decoded (a range selection read that returns an unknown range
/// code).
pub fn run<I: CommandInterface>(interface: &mut I, request: &Ads8681Request) -> (r: Result<
    Option<Ads8681Response>,
    I::Error,
>)
    ensures
        r matches Ok(Some(resp)) ==> exists|w: OutputDataWord|
            request.reply_decodable(w) && request.is_response(w, resp),
        I::keeps_exchanges() ==> request.ran(
            old(interface).exchanges(),
            final(interface).exchanges(),
            r,
        ),
{
    let ghost before = interface.exchanges();
    let ghost commands_spec = request.spec_commands();
    let commands = request.commands();
    let mut last = OutputDataWord([0, 0, 0, 0]);
    let mut i: usize = 0;
    while i < commands.len()
        invariant
            commands.len() == commands_spec.len(),
            commands.len() >= 1,
            forall|j: int| 0 <= j < commands.len() ==> #[trigger] commands[j]@ == commands_spec[j],
            commands_spec == request.spec_commands(),
            before == old(interface).exchanges(),
            i <= commands.len(),
            I::keeps_exchanges() ==> {
                let after = interface.exchanges();
                &&& after.len() == before.len() + i
                &&& after.subrange(0, before.len() as int) == before
                &&& forall|j: int|
                    0 <= j < i ==> (#[trigger] after[before.len() + j]).0@ == commands_spec[j]
                &&& forall|j: int| 0 <= j < i ==> (#[trigger] after[before.len() + j]).1 is Some
                &&& i > 0 ==> after.last().1 == Some(last)
            },
        decreases commands.len() - i,
    {
        let ghost mid = interface.exchanges();
        let result = interface.exchange(commands[i]);
        proof {
            if I::keeps_exchanges() {
                let after = interface.exchanges();
                assert(after == mid.push((commands[i as int], reply_of(result))));
                assert(after.subrange(0, before.len() as int) =~= before) by {
                    assert(mid.subrange(0, before.len() as int) == before);
                    assert forall|k: int| 0 <= k < before.len() implies after.subrange(
                        0,
                        before.len() as int,
                    )[k] == before[k] by {
                        assert(after[k] == mid[k]);
                        assert(mid.subrange(0, before.len() as int)[k] == mid[k]);
                    }
                }
                assert forall|j: int| 0 <= j <= i implies (#[trigger] after[before.len()
                    + j]).0@ == commands_spec[j] by {
                    if j < i {
                        assert(after[before.len() + j] == mid[before.len() + j]);
                    } else {
                        assert(after[before.len() + j] == (commands[i as int], reply_of(result)));
                    }
                }
                assert forall|j: int| 0 <= j < i implies (#[trigger] after[before.len()
                    + j]).1 is Some by {
                    assert(after[before.len() + j] == mid[before.len() + j]);
                }
            }
        }
        match result {
            Ok(word) => {
                last = word;
            },
            Err(e) => {
                return Err(e);
            },
        }
        i += 1;
    }
    if request.accepts_reply(&last) {
        Ok(Some(request.response(last)))
    } else {
        Ok(None)
    }
}

/// The commands of the register writes, at the device's register addresses:
/// the byte registers (device address at 0x02, reset power control at 0x04,
/// SDI control at 0x08, range selection at 0x14) are written with a write of
/// the least significant byte carrying the register bits, the alarm
/// hysteresis (0x27) with a write of the most significant byte, and the half-
/// word registers (SDO control at 0x0C, data out control at 0x10, alarm
/// thresholds at 0x24 and 0x28) with a half-word write; the reset power
/// control write is preceded by writing WKEY (0x69) to its key byte and
/// followed by writing zero to it. Each with its frame.
pub proof fn lemma_register_write_commands(req: Ads8681Request)
    ensures
        req matches Ads8681Request::SetDeviceAddress(a) ==> req.spec_commands() == seq![
            (CommandBits::WriteHwordLs, 0x02u8, a.0 as u16),
        ] && spec_frame(CommandBits::WriteHwordLs, 0x02, a.0 as u16) == seq![
            0xD4u8,
            0x02u8,
            0x00u8,
            a.0,
        ],
        req matches Ads8681Request::SetRstPwrCtrl(v) ==> req.spec_commands() == seq![
            (CommandBits::WriteHwordMs, 0x04u8, 0x6900u16),
            (CommandBits::WriteHwordLs, 0x04u8, v@ as u16),
            (CommandBits::WriteHwordMs, 0x04u8, 0u16),
        ] && spec_frame(CommandBits::WriteHwordMs, 0x04, 0x6900) == seq![
            0xD2u8,
            0x04u8,
            0x69u8,
            0x00u8,
        ] && spec_frame(CommandBits::WriteHwordLs, 0x04, v@ as u16) == seq![
            0xD4u8,
            0x04u8,
            0x00u8,
            v@,
        ] && spec_frame(CommandBits::WriteHwordMs, 0x04, 0) == seq![
            0xD2u8,
            0x04u8,
            0x00u8,
            0x00u8,
        ],
        req matches Ads8681Request::SetSdiCtl(m) ==> req.spec_commands() == seq![
            (CommandBits::WriteHwordLs, 0x08u8, m@ as u16),
        ] && spec_frame(CommandBits::WriteHwordLs, 0x08, m@ as u16) == seq![
            0xD4u8,
            0x08u8,
            0x00u8,
            m@,
        ],
        req matches Ads8681Request::SetRangeSel(r) ==> req.spec_commands() == seq![
            (CommandBits::WriteHwordLs, 0x14u8, r@ as u16),
        ] && spec_frame(CommandBits::WriteHwordLs, 0x14, r@ as u16) == seq![
            0xD4u8,
            0x14u8,
            0x00u8,
            r@,
        ],
        req matches Ads8681Request::SetAlarmHysteresis(h) ==> req.spec_commands() == seq![
            (CommandBits::WriteHwordMs, 0x27u8, (h as int * 256) as u16),
        ] && spec_frame(CommandBits::WriteHwordMs, 0x27, (h as int * 256) as u16) == seq![
            0xD2u8,
            0x27u8,
            h,
            0x00u8,
        ],
        req matches Ads8681Request::SetSdoCtl(c) ==> req.spec_commands() == seq![
            (CommandBits::WriteHword, 0x0Cu8, c@),
        ] && spec_frame(CommandBits::WriteHword, 0x0C, c@) == seq![
            0xD0u8,
            0x0Cu8,
            (c@ / 256) as u8,
            (c@ % 256) as u8,
        ],
        req matches Ads8681Request::SetDataoutCtl(c) ==> req.spec_commands() == seq![
            (CommandBits::WriteHword, 0x10u8, c@),
        ] && spec_frame(CommandBits::WriteHword, 0x10, c@) == seq![
            0xD0u8,
            0x10u8,
            (c@ / 256) as u8,
            (c@ % 256) as u8,
        ],
        req matches Ads8681Request::SetInpAlarmHighThreshold(t) ==> req.spec_commands() == seq![
            (CommandBits::WriteHword, 0x24u8, t),
        ] && spec_frame(CommandBits::WriteHword, 0x24, t) == seq![
            0xD0u8,
            0x24u8,
            (t / 256) as u8,
            (t % 256) as u8,
        ],
        req matches Ads8681Request::SetInpAlarmLowThreshold(t) ==> req.spec_commands() == seq![
            (CommandBits::WriteHword, 0x28u8, t),
        ] && spec_frame(CommandBits::WriteHword, 0x28, t) == seq![
            0xD0u8,
            0x28u8,
            (t / 256) as u8,
            (t % 256) as u8,
        ],
{
    assert(spec_frame(CommandBits::WriteHwordMs, 0x04, 0x6900) =~= seq![
        0xD2u8,
        0x04u8,
        0x69u8,
        0x00u8,
    ]);
    assert(spec_frame(CommandBits::WriteHwordMs, 0x04, 0) =~= seq![0xD2u8, 0x04u8, 0x00u8, 0x00u8]);
    match req {
        Ads8681Request::SetDeviceAddress(a) => {
            assert(spec_frame(CommandBits::WriteHwordLs, 0x02, a.0 as u16) =~= seq![
                0xD4u8,
                0x02u8,
                0x00u8,
                a.0,
            ]);
        },
        Ads8681Request::SetRstPwrCtrl(v) => {
            assert(spec_frame(CommandBits::WriteHwordLs, 0x04, v@ as u16) =~= seq![
                0xD4u8,
                0x04u8,
                0x00u8,
                v@,
            ]);
        },
        Ads8681Request::SetSdiCtl(m) => {
            assert(spec_frame(CommandBits::WriteHwordLs, 0x08, m@ as u16) =~= seq![
                0xD4u8,
                0x08u8,
                0x00u8,
                m@,
            ]);
        },
        Ads8681Request::SetRangeSel(r) => {
            assert(spec_frame(CommandBits::WriteHwordLs, 0x14, r@ as u16) =~= seq![
                0xD4u8,
                0x14u8,
                0x00u8,
                r@,
            ]);
        },
        Ads8681Request::SetAlarmHysteresis(h) => {
            assert(spec_frame(CommandBits::WriteHwordMs, 0x27, (h as int * 256) as u16) =~= seq![
                0xD2u8,
                0x27u8,
                h,
                0x00u8,
            ]);
        },
        Ads8681Request::SetSdoCtl(c) => {
            assert(spec_frame(CommandBits::WriteHword, 0x0C, c@) =~= seq![
                0xD0u8,
                0x0Cu8,
                (c@ / 256) as u8,
                (c@ % 256) as u8,
            ]);
        },
        Ads8681Request::SetDataoutCtl(c) => {
            assert(spec_frame(CommandBits::WriteHword, 0x10, c@) =~= seq![
                0xD0u8,
                0x10u8,
                (c@ / 256) as u8,
                (c@ % 256) as u8,
            ]);
        },
        Ads8681Request::SetInpAlarmHighThreshold(t) => {
            assert(spec_frame(CommandBits::WriteHword, 0x24, t) =~= seq![
                0xD0u8,
                0x24u8,
                (t / 256) as u8,
                (t % 256) as u8,
            ]);
        },
        Ads8681Request::SetInpAlarmLowThreshold(t) => {
            assert(spec_frame(CommandBits::WriteHword, 0x28, t) =~= seq![
                0xD0u8,
                0x28u8,
                (t / 256) as u8,
                (t % 256) as u8,
            ]);
        },
        _ => {},
    }
}

/// The commands of the register reads: one byte read (frame `48 aa 00 00`)
/// of the device address (0x02), reset power control (0x04), SDI control
/// (0x08), range selection (0x14) and alarm hysteresis (0x27) registers; one
/// half-word read (frame `C8 aa 00 00`) of the SDO control (0x0C), data out
/// control (0x10), alarm (0x20) and alarm threshold (0x24, 0x28) registers;
/// and the no-operation command (all-zero frame) for the output data word.
pub proof fn lemma_register_read_commands(req: Ads8681Request)
    ensures
        req == Ads8681Request::GetDataOutput ==> req.spec_commands() == seq![
            (CommandBits::Noop, 0x00u8, 0u16),
        ] && spec_frame(CommandBits::Noop, 0x00, 0) == seq![0u8, 0u8, 0u8, 0u8],
        req == Ads8681Request::GetDeviceAddress ==> req.spec_commands() == seq![
            (CommandBits::Read, 0x02u8, 0u16),
        ],
        req == Ads8681Request::GetRstPwrCtrl ==> req.spec_commands() == seq![
            (CommandBits::Read, 0x04u8, 0u16),
        ],
        req == Ads8681Request::GetSdiCtl ==> req.spec_commands() == seq![
            (CommandBits::Read, 0x08u8, 0u16),
        ],
        req == Ads8681Request::GetRangeSel ==> req.spec_commands() == seq![
            (CommandBits::Read, 0x14u8, 0u16),
        ],
        req == Ads8681Request::GetAlarmHysteresis ==> req.spec_commands() == seq![
            (CommandBits::Read, 0x27u8, 0u16),
        ],
        req == Ads8681Request::GetSdoCtl ==> req.spec_commands() == seq![
            (CommandBits::ReadHword, 0x0Cu8, 0u16),
        ],
        req == Ads8681Request::GetDataoutCtl ==> req.spec_commands() == seq![
            (CommandBits::ReadHword, 0x10u8, 0u16),
        ],
        req == Ads8681Request::GetAlarm ==> req.spec_commands() == seq![
            (CommandBits::ReadHword, 0x20u8, 0u16),
        ],
        req == Ads8681Request::GetInpAlarmHighThreshold ==> req.spec_commands() == seq![
            (CommandBits::ReadHword, 0x24u8, 0u16),
        ],
        req == Ads8681Request::GetInpAlarmLowThreshold ==> req.spec_commands() == seq![
            (CommandBits::ReadHword, 0x28u8, 0u16),
        ],
        forall|a: u8| spec_frame(CommandBits::Read, a, 0) == seq![0x48u8, a, 0u8, 0u8],
        forall|a: u8| spec_frame(CommandBits::ReadHword, a, 0) == seq![0xC8u8, a, 0u8, 0u8],
{
    assert(spec_frame(CommandBits::Noop, 0x00, 0) =~= seq![0u8, 0u8, 0u8, 0u8]);
    assert forall|a: u8| spec_frame(CommandBits::Read, a, 0) == seq![0x48u8, a, 0u8, 0u8] by {
        assert(spec_frame(CommandBits::Read, a, 0) =~= seq![0x48u8, a, 0u8, 0u8]);
    }
    assert forall|a: u8| spec_frame(CommandBits::ReadHword, a, 0) == seq![0xC8u8, a, 0u8, 0u8] by {
        assert(spec_frame(CommandBits::ReadHword, a, 0) =~= seq![0xC8u8, a, 0u8, 0u8]);
    }
}

/// Half-word reads return the first two bytes of the reply, most significant
/// first: the thresholds are that half word, and the SDO control, data out
/// control and alarm registers read have it as their bits (once the SDO and
/// data out codes are canonical).
pub proof fn lemma_halfword_reads_msb_first(
    req: Ads8681Request,
    reply: OutputDataWord,
    resp: Ads8681Response,
)
    requires
        req.is_response(reply, resp),
    ensures
        ({
            let h = (reply.0[0] as int * 256 + reply.0[1] as int) as u16;
            &&& req == Ads8681Request::GetInpAlarmHighThreshold ==> resp
                == Ads8681Response::Hword(h)
            &&& req == Ads8681Request::GetInpAlarmLowThreshold ==> resp
                == Ads8681Response::Hword(h)
            &&& req == Ads8681Request::GetAlarm ==> (resp matches Ads8681Response::Alarm(v)
                && v@ == h)
            &&& req == Ads8681Request::GetSdoCtl ==> (resp matches Ads8681Response::SdoCtl(v) && (
            SdoMode::is_canonical(field16(h, 0, 2) as u8) ==> v@ == h))
            &&& req == Ads8681Request::GetDataoutCtl ==> (resp matches Ads8681Response::DataOutCtl(
                v,
            ) && (DataVal::is_canonical(field16(h, 0, 3) as u8) ==> v@ == h))
        }),
{
    let h = (reply.0[0] as int * 256 + reply.0[1] as int) as u16;
    if SdoMode::is_canonical(field16(h, 0, 2) as u8) {
        SdoCtl::lemma_canonical_bits(h);
    }
    if DataVal::is_canonical(field16(h, 0, 3) as u8) {
        DataOutCtl::lemma_canonical_bits(h);
    }
}

/// Byte reads return the first byte of the reply: the hysteresis and device
/// address are that byte, and the byte registers read have it as their bits.
pub proof fn lemma_byte_reads_first_byte(
    req: Ads8681Request,
    reply: OutputDataWord,
    resp: Ads8681Response,
)
    requires
        req.is_response(reply, resp),
    ensures
        req == Ads8681Request::GetAlarmHysteresis ==> resp == Ads8681Response::Byte(reply.0[0]),
        req == Ads8681Request::GetDeviceAddress ==> resp == Ads8681Response::DeviceAddress(
            DeviceAddress(reply.0[0]),
        ),
        req == Ads8681Request::GetRstPwrCtrl ==> (resp matches Ads8681Response::RstPwrCtrl(v) && v@
            == reply.0[0]),
        req == Ads8681Request::GetSdiCtl ==> (resp matches Ads8681Response::SdiMode(v) && v@
            == reply.0[0]),
        req == Ads8681Request::GetRangeSel ==> (resp matches Ads8681Response::RangeSel(v) && v@
            == reply.0[0]),
{
}

/// The output data word read by a noop, and the one after the last command of
/// every register write, comes back whole: all four bytes as clocked out.
pub proof fn lemma_words_come_back_whole(
    req: Ads8681Request,
    reply: OutputDataWord,
    resp: Ads8681Response,
)
    requires
        req.is_response(reply, resp),
        req == Ads8681Request::GetDataOutput || req.readback() is Some,
    ensures
        resp matches Ads8681Response::DataOutput(w) && w.0[0] == reply.0[0] && w.0[1]
            == reply.0[1] && w.0[2] == reply.0[2] && w.0[3] == reply.0[3],
{
}

} // verus!
