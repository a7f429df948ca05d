//! Enumerated values of the multi-bit fields of the configuration registers,
//! with their conversions from and into the raw field bits.
use vstd::prelude::*;

verus! {

/// What sending a signal through the reset pin does.
#[derive(Debug, Clone, Copy, PartialEq, Eq, Structural)]
pub enum ResetPinFunction {
    /// Full device initialization
    PorClassReset,
    /// Application reset (only user programmed modes cleared)
    ApplicationReset,
}

impl ResetPinFunction {
    /// Field value for raw bits: zero is a POR-class reset, anything else an
    /// application reset.
    pub open spec fn spec_from_bits(bits: u8) -> Self {
        if bits == 0 {
            ResetPinFunction::PorClassReset
        } else {
            ResetPinFunction::ApplicationReset
        }
    }

    /// Raw bits of the field value.
    pub open spec fn spec_into_bits(self) -> u8 {
        match self {
            ResetPinFunction::PorClassReset => 0,
            ResetPinFunction::ApplicationReset => 1,
        }
    }

    /// Decodes the one-bit field.
    pub fn from_bits(bits: u8) -> (r: Self)
        ensures
            r == Self::spec_from_bits(bits),
    {
        if bits == 0 {
            Self::PorClassReset
        } else {
            Self::ApplicationReset
        }
    }

    /// Encodes the field; decoding the result gives the value back.
    pub fn into_bits(self) -> (r: u8)
        ensures
            r == self.spec_into_bits(),
            r < 2,
            Self::spec_from_bits(r) == self,
    {
        match self {
            Self::PorClassReset => 0,
            Self::ApplicationReset => 1,
        }
    }
}

/// How the SDO pin should behave.
#[derive(Debug, Clone, Copy, PartialEq, Eq, Structural)]
pub enum SdoMode {
    /// Output data follow the SDI clocking protocol (codes `0b00` and `0b01`).
    SameAsSdi,
    /// Code `0b10`, which the device does not accept.
    InvalidConfiguration,
    /// Code `0b11`.
    AdcControllerClockOrSourceSynchronous,
}

impl SdoMode {
    /// Field value for raw bits: `0b00` and `0b01` follow SDI, `0b11` is the
    /// ADC controller clock mode, anything else the invalid configuration.
    pub open spec fn spec_from_bits(bits: u8) -> Self {
        if bits == 0 || bits == 1 {
            SdoMode::SameAsSdi
        } else if bits == 3 {
            SdoMode::AdcControllerClockOrSourceSynchronous
        } else {
            SdoMode::InvalidConfiguration
        }
    }

    /// Raw bits of the field value.
    pub open spec fn spec_into_bits(self) -> u8 {
        match self {
            SdoMode::SameAsSdi => 0,
            SdoMode::InvalidConfiguration => 2,
            SdoMode::AdcControllerClockOrSourceSynchronous => 3,
        }
    }

    /// Whether raw bits are the encoding of some value (`0b01` is not: it
    /// decodes like `0b00`).
    pub open spec fn is_canonical(bits: u8) -> bool {
        bits == 0 || bits == 2 || bits == 3
    }

    /// Decodes the two-bit field.
    pub fn from_bits(bits: u8) -> (r: Self)
        ensures
            r == Self::spec_from_bits(bits),
    {
        if bits == 0 || bits == 1 {
            Self::SameAsSdi
        } else if bits == 3 {
            Self::AdcControllerClockOrSourceSynchronous
        } else {
            Self::InvalidConfiguration
        }
    }

    /// Encodes the field; decoding the result gives the value back.
    pub fn into_bits(self) -> (r: u8)
        ensures
            r == self.spec_into_bits(),
            Self::is_canonical(r),
            Self::spec_from_bits(r) == self,
    {
        match self {
            Self::SameAsSdi => 0,
            Self::InvalidConfiguration => 2,
            Self::AdcControllerClockOrSourceSynchronous => 3,
        }
    }
}

/// How the SDO1 pin should behave. Useful for daisy chaining.
#[derive(Debug, Clone, Copy, PartialEq, Eq, Structural)]
pub enum Sdo1Mode {
    /// Code `0b00`.
    AlwaysTriStated,
    /// Code `0b01`.
    FunctionsAsAlarm,
    /// Code `0b10`.
    FunctionsAsGPO,
    /// Code `0b11`.
    TwoBitWithSdo0,
}

impl Sdo1Mode {
    /// Field value for two raw bits.
    pub open spec fn spec_from_bits(bits: u8) -> Self
        recommends
            bits < 4,
    {
        if bits == 0 {
            Sdo1Mode::AlwaysTriStated
        } else if bits == 1 {
            Sdo1Mode::FunctionsAsAlarm
        } else if bits == 2 {
            Sdo1Mode::FunctionsAsGPO
        } else {
            Sdo1Mode::TwoBitWithSdo0
        }
    }

    /// Raw bits of the field value.
    pub open spec fn spec_into_bits(self) -> u8 {
        match self {
            Sdo1Mode::AlwaysTriStated => 0,
            Sdo1Mode::FunctionsAsAlarm => 1,
            Sdo1Mode::FunctionsAsGPO => 2,
            Sdo1Mode::TwoBitWithSdo0 => 3,
        }
    }

    /// Decodes the two-bit field; every two-bit code is a value.
    pub fn from_bits(bits: u8) -> (r: Self)
        requires
            bits < 4,
        ensures
            r == Self::spec_from_bits(bits),
            r.spec_into_bits() == bits,
    {
        if bits == 0 {
            Self::AlwaysTriStated
        } else if bits == 1 {
            Self::FunctionsAsAlarm
        } else if bits == 2 {
            Self::FunctionsAsGPO
        } else {
            Self::TwoBitWithSdo0
        }
    }

    /// Encodes the field; decoding the result gives the value back.
    pub fn into_bits(self) -> (r: u8)
        ensures
            r == self.spec_into_bits(),
            r < 4,
            Self::spec_from_bits(r) == self,
    {
        match self {
            Self::AlwaysTriStated => 0,
            Self::FunctionsAsAlarm => 1,
            Self::FunctionsAsGPO => 2,
            Self::TwoBitWithSdo0 => 3,
        }
    }
}

/// The data value field of the data out control register decides how the
/// conversion data bits are encoded.
#[derive(Debug, Clone, Copy, PartialEq, Eq, Structural)]
pub enum DataVal {
    /// Output normal conversion data (codes `0b000` to `0b011`).
    ConversionData,
    /// Code `0b100`.
    AllZeros,
    /// Code `0b101`.
    AllOnes,
    /// Code `0b110`.
    AlternatingZerosAndOnes,
    /// Code `0b111`.
    AlternatingDoubleZerosAndOnes,
}

impl DataVal {
    /// Field value for raw bits: `0b100` to `0b111` select a test pattern,
    /// anything else normal conversion data.
    pub open spec fn spec_from_bits(bits: u8) -> Self {
        if bits == 4 {
            DataVal::AllZeros
        } else if bits == 5 {
            DataVal::AllOnes
        } else if bits == 6 {
            DataVal::AlternatingZerosAndOnes
        } else if bits == 7 {
            DataVal::AlternatingDoubleZerosAndOnes
        } else {
            DataVal::ConversionData
        }
    }

    /// Raw bits of the field value.
    pub open spec fn spec_into_bits(self) -> u8 {
        match self {
            DataVal::ConversionData => 0,
            DataVal::AllZeros => 4,
            DataVal::AllOnes => 5,
            DataVal::AlternatingZerosAndOnes => 6,
            DataVal::AlternatingDoubleZerosAndOnes => 7,
        }
    }

    /// Whether raw bits are the encoding of some value.
    pub open spec fn is_canonical(bits: u8) -> bool {
        bits == 0 || (4 <= bits && bits <= 7)
    }

    /// Decodes the three-bit field.
    pub fn from_bits(bits: u8) -> (r: Self)
        ensures
            r == Self::spec_from_bits(bits),
    {
        if bits == 4 {
            Self::AllZeros
        } else if bits == 5 {
            Self::AllOnes
        } else if bits == 6 {
            Self::AlternatingZerosAndOnes
        } else if bits == 7 {
            Self::AlternatingDoubleZerosAndOnes
        } else {
            Self::ConversionData
        }
    }

    /// Encodes the field; decoding the result gives the value back.
    pub fn into_bits(self) -> (r: u8)
        ensures
            r == self.spec_into_bits(),
            Self::is_canonical(r),
            Self::spec_from_bits(r) == self,
    {
        match self {
            Self::ConversionData => 0,
            Self::AllZeros => 4,
            Self::AllOnes => 5,
            Self::AlternatingZerosAndOnes => 6,
            Self::AlternatingDoubleZerosAndOnes => 7,
        }
    }
}

/// ADC input ranges relative to V_ref. Refer to the datasheet for more details.
#[derive(Debug, Clone, Copy, PartialEq, Eq, Structural)]
pub enum AdcInputRanges {
    /// ±3 × V_ref, code `0b0000`.
    PlusMinusThree,
    /// ±2.5 × V_ref, code `0b0001`.
    PlusMinusTwoPointFive,
    /// ±1.5 × V_ref, code `0b0010`.
    PlusMinusOnePointFive,
    /// ±1.25 × V_ref, code `0b0011`.
    PlusMinusOnePointTwoFive,
    /// ±0.625 × V_ref, code `0b0100`.
    PlusMinusSubZero,
    /// 0 to 3 × V_ref, code `0b1000`.
    Three,
    /// 0 to 2.5 × V_ref, code `0b1001`.
    TwoPointFive,
    /// 0 to 1.5 × V_ref, code `0b1010`.
    OnePointFive,
    /// 0 to 1.25 × V_ref, code `0b1011`.
    OnePointTwoFive,
}

impl AdcInputRanges {
    /// Whether raw bits are the code of an input range.
    pub open spec fn is_valid_bits(bits: u8) -> bool {
        bits <= 4 || (8 <= bits && bits <= 11)
    }

    /// Input range for a valid code.
    pub open spec fn spec_from_bits(bits: u8) -> Self
        recommends
            Self::is_valid_bits(bits),
    {
        if bits == 0 {
            AdcInputRanges::PlusMinusThree
        } else if bits == 1 {
            AdcInputRanges::PlusMinusTwoPointFive
        } else if bits == 2 {
            AdcInputRanges::PlusMinusOnePointFive
        } else if bits == 3 {
            AdcInputRanges::PlusMinusOnePointTwoFive
        } else if bits == 4 {
            AdcInputRanges::PlusMinusSubZero
        } else if bits == 8 {
            AdcInputRanges::Three
        } else if bits == 9 {
            AdcInputRanges::TwoPointFive
        } else if bits == 10 {
            AdcInputRanges::OnePointFive
        } else {
            AdcInputRanges::OnePointTwoFive
        }
    }

    /// Code of the input range.
    pub open spec fn spec_into_bits(self) -> u8 {
        match self {
            AdcInputRanges::PlusMinusThree => 0,
            AdcInputRanges::PlusMinusTwoPointFive => 1,
            AdcInputRanges::PlusMinusOnePointFive => 2,
            AdcInputRanges::PlusMinusOnePointTwoFive => 3,
            AdcInputRanges::PlusMinusSubZero => 4,
            AdcInputRanges::Three => 8,
            AdcInputRanges::TwoPointFive => 9,
            AdcInputRanges::OnePointFive => 10,
            AdcInputRanges::OnePointTwoFive => 11,
        }
    }

    /// Decodes a four-bit range code; only the codes of the listed ranges are
    /// accepted.
    pub fn from_bits(bits: u8) -> (r: Self)
        requires
            Self::is_valid_bits(bits),
        ensures
            r == Self::spec_from_bits(bits),
            r.spec_into_bits() == bits,
    {
        if bits == 0 {
            Self::PlusMinusThree
        } else if bits == 1 {
            Self::PlusMinusTwoPointFive
        } else if bits == 2 {
            Self::PlusMinusOnePointFive
        } else if bits == 3 {
            Self::PlusMinusOnePointTwoFive
        } else if bits == 4 {
            Self::PlusMinusSubZero
        } else if bits == 8 {
            Self::Three
        } else if bits == 9 {
            Self::TwoPointFive
        } else if bits == 10 {
            Self::OnePointFive
        } else {
            Self::OnePointTwoFive
        }
    }

    /// Encodes the range; the code is valid and decodes back to the range.
    pub fn into_bits(self) -> (r: u8)
        ensures
            r == self.spec_into_bits(),
            Self::is_valid_bits(r),
            Self::spec_from_bits(r) == self,
    {
        match self {
            Self::PlusMinusThree => 0,
            Self::PlusMinusTwoPointFive => 1,
            Self::PlusMinusOnePointFive => 2,
            Self::PlusMinusOnePointTwoFive => 3,
            Self::PlusMinusSubZero => 4,
            Self::Three => 8,
            Self::TwoPointFive => 9,
            Self::OnePointFive => 10,
            Self::OnePointTwoFive => 11,
        }
    }
}

} // verus!

verus! {

/// The device's codes of the enumerated field values, each way: every value
/// encodes as its code, and every code decodes to its value (the codes that
/// more than one bit pattern decodes to included).
pub proof fn lemma_field_codes()
    ensures
        ResetPinFunction::PorClassReset.spec_into_bits() == 0,
        ResetPinFunction::ApplicationReset.spec_into_bits() == 1,
        ResetPinFunction::spec_from_bits(0) == ResetPinFunction::PorClassReset,
        forall|b: u8| b != 0 ==> ResetPinFunction::spec_from_bits(b) == ResetPinFunction::ApplicationReset,
        SdoMode::SameAsSdi.spec_into_bits() == 0b00,
        SdoMode::InvalidConfiguration.spec_into_bits() == 0b10,
        SdoMode::AdcControllerClockOrSourceSynchronous.spec_into_bits() == 0b11,
        SdoMode::spec_from_bits(0b00) == SdoMode::SameAsSdi,
        SdoMode::spec_from_bits(0b01) == SdoMode::SameAsSdi,
        SdoMode::spec_from_bits(0b10) == SdoMode::InvalidConfiguration,
        SdoMode::spec_from_bits(0b11) == SdoMode::AdcControllerClockOrSourceSynchronous,
        Sdo1Mode::AlwaysTriStated.spec_into_bits() == 0b00,
        Sdo1Mode::FunctionsAsAlarm.spec_into_bits() == 0b01,
        Sdo1Mode::FunctionsAsGPO.spec_into_bits() == 0b10,
        Sdo1Mode::TwoBitWithSdo0.spec_into_bits() == 0b11,
        Sdo1Mode::spec_from_bits(0b00) == Sdo1Mode::AlwaysTriStated,
        Sdo1Mode::spec_from_bits(0b01) == Sdo1Mode::FunctionsAsAlarm,
        Sdo1Mode::spec_from_bits(0b10) == Sdo1Mode::FunctionsAsGPO,
        Sdo1Mode::spec_from_bits(0b11) == Sdo1Mode::TwoBitWithSdo0,
        DataVal::ConversionData.spec_into_bits() == 0b000,
        DataVal::AllZeros.spec_into_bits() == 0b100,
        DataVal::AllOnes.spec_into_bits() == 0b101,
        DataVal::AlternatingZerosAndOnes.spec_into_bits() == 0b110,
        DataVal::AlternatingDoubleZerosAndOnes.spec_into_bits() == 0b111,
        forall|b: u8| b < 4 ==> DataVal::spec_from_bits(b) == DataVal::ConversionData,
        DataVal::spec_from_bits(0b100) == DataVal::AllZeros,
        DataVal::spec_from_bits(0b101) == DataVal::AllOnes,
        DataVal::spec_from_bits(0b110) == DataVal::AlternatingZerosAndOnes,
        DataVal::spec_from_bits(0b111) == DataVal::AlternatingDoubleZerosAndOnes,
        AdcInputRanges::PlusMinusThree.spec_into_bits() == 0b0000,
        AdcInputRanges::PlusMinusTwoPointFive.spec_into_bits() == 0b0001,
        AdcInputRanges::PlusMinusOnePointFive.spec_into_bits() == 0b0010,
        AdcInputRanges::PlusMinusOnePointTwoFive.spec_into_bits() == 0b0011,
        AdcInputRanges::PlusMinusSubZero.spec_into_bits() == 0b0100,
        AdcInputRanges::Three.spec_into_bits() == 0b1000,
        AdcInputRanges::TwoPointFive.spec_into_bits() == 0b1001,
        AdcInputRanges::OnePointFive.spec_into_bits() == 0b1010,
        AdcInputRanges::OnePointTwoFive.spec_into_bits() == 0b1011,
        AdcInputRanges::spec_from_bits(0b0000) == AdcInputRanges::PlusMinusThree,
        AdcInputRanges::spec_from_bits(0b0001) == AdcInputRanges::PlusMinusTwoPointFive,
        AdcInputRanges::spec_from_bits(0b0010) == AdcInputRanges::PlusMinusOnePointFive,
        AdcInputRanges::spec_from_bits(0b0011) == AdcInputRanges::PlusMinusOnePointTwoFive,
        AdcInputRanges::spec_from_bits(0b0100) == AdcInputRanges::PlusMinusSubZero,
        AdcInputRanges::spec_from_bits(0b1000) == AdcInputRanges::Three,
        AdcInputRanges::spec_from_bits(0b1001) == AdcInputRanges::TwoPointFive,
        AdcInputRanges::spec_from_bits(0b1010) == AdcInputRanges::OnePointFive,
        AdcInputRanges::spec_from_bits(0b1011) == AdcInputRanges::OnePointTwoFive,
        forall|b: u8| AdcInputRanges::is_valid_bits(b) <==> (b <= 0b0100 || (0b1000 <= b && b <= 0b1011)),
{
}

} // verus!
