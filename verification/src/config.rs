//! Values of the device's configuration and status registers. Each value
//! keeps the raw register bits; its fields are read and written in place, at
//! the positions the device defines, least significant bit first.
use vstd::prelude::*;
use crate::bits::{
    field16, field8, flag16, flag8, get_field16, get_field8, lemma_field16, lemma_field8, lemma_masks,
    put_field16, put_field8, with_field16, with_field8,
};
use crate::fields::{AdcInputRanges, DataVal, ResetPinFunction, Sdo1Mode, SdoMode};

verus! {

/// The reset power control register is responsible for enabling/disabling
/// some features on the ads8681. Note that writing to it requires unlocking
/// the register via the WKEY field first. The driver in this library should
/// handle that for you automatically.
#[derive(Debug, Clone, Copy, PartialEq, Eq, Structural)]
pub struct RstPwrCtrl {
    bits: u8,
}

impl View for RstPwrCtrl {
    type V = u8;

    /// The raw register bits.
    closed spec fn view(&self) -> u8 {
        self.bits
    }
}

impl RstPwrCtrl {
    /// The register value with the given raw bits.
    pub closed spec fn with_bits(bits: u8) -> Self {
        RstPwrCtrl { bits }
    }

    /// The register value with the given raw bits has those bits.
    pub proof fn lemma_with_bits(bits: u8)
        ensures
            Self::with_bits(bits)@ == bits,
    {
    }

    /// The bits of the value that raw bits decode to: the bits themselves.
    pub open spec fn canonical_bits(bits: u8) -> u8 {
        bits
    }

    /// The `power_down` field (puts the device in power-down mode), bits 0..1.
    pub open spec fn spec_power_down(self) -> bool {
        flag8(self@, 0)
    }

    /// The `nap_mode_enabled` field (enables nap mode), bits 1..2.
    pub open spec fn spec_nap_mode_enabled(self) -> bool {
        flag8(self@, 1)
    }

    /// The `reset_pin_function` field (what a signal on the reset pin does), bits 2..3.
    pub open spec fn spec_reset_pin_function(self) -> ResetPinFunction {
        ResetPinFunction::spec_from_bits(field8(self@, 2, 1))
    }

    /// The `input_alarm_enabled` field (enables the input alarm), bits 4..5.
    pub open spec fn spec_input_alarm_enabled(self) -> bool {
        flag8(self@, 4)
    }

    /// The `vdd_alarm_enabled` field (enables the AVDD alarm), bits 5..6.
    pub open spec fn spec_vdd_alarm_enabled(self) -> bool {
        flag8(self@, 5)
    }

    /// Where each field sits in the register bits, least significant bit 0:
    /// `power_down` bit 0; `nap_mode_enabled` bit 1; `reset_pin_function` bit 2; `input_alarm_enabled` bit 4; `vdd_alarm_enabled` bit 5.
    pub proof fn lemma_layout(v: Self)
        ensures
            v.spec_power_down() == ((v@ >> 0u8) & 1u8 != 0),
            v.spec_nap_mode_enabled() == ((v@ >> 1u8) & 1u8 != 0),
            v.spec_reset_pin_function() == ResetPinFunction::spec_from_bits((v@ >> 2u8) & 1u8),
            v.spec_input_alarm_enabled() == ((v@ >> 4u8) & 1u8 != 0),
            v.spec_vdd_alarm_enabled() == ((v@ >> 5u8) & 1u8 != 0),
    {
        lemma_masks();
    }

    /// A register value with every bit cleared.
    pub fn new() -> (r: Self)
        ensures
            r@ == 0,
    {
        Self { bits: 0 }
    }

    /// The register value with the given raw bits.
    pub fn from_bits(bits: u8) -> (r: Self)
        ensures
            r@ == bits,
            r@ == Self::canonical_bits(bits),
    {
        Self { bits }
    }

    /// The raw register bits.
    pub fn into_bits(self) -> (r: u8)
        ensures
            r == self@,
    {
        self.bits
    }

    /// Reads the field: puts the device in power-down mode.
    pub fn power_down(&self) -> (r: bool)
        ensures
            r == self.spec_power_down(),
    {
        get_field8(self.bits, 0, 1) != 0
    }

    /// Reads the field: enables nap mode.
    pub fn nap_mode_enabled(&self) -> (r: bool)
        ensures
            r == self.spec_nap_mode_enabled(),
    {
        get_field8(self.bits, 1, 1) != 0
    }

    /// Reads the field: what a signal on the reset pin does.
    pub fn reset_pin_function(&self) -> (r: ResetPinFunction)
        ensures
            r == self.spec_reset_pin_function(),
    {
        ResetPinFunction::from_bits(get_field8(self.bits, 2, 1))
    }

    /// Reads the field: enables the input alarm.
    pub fn input_alarm_enabled(&self) -> (r: bool)
        ensures
            r == self.spec_input_alarm_enabled(),
    {
        get_field8(self.bits, 4, 1) != 0
    }

    /// Reads the field: enables the AVDD alarm.
    pub fn vdd_alarm_enabled(&self) -> (r: bool)
        ensures
            r == self.spec_vdd_alarm_enabled(),
    {
        get_field8(self.bits, 5, 1) != 0
    }

    /// Sets the field: puts the device in power-down mode. Every other bit is kept.
    pub fn set_power_down(&mut self, value: bool)
        ensures
            final(self)@ == with_field8(old(self)@, 0, 1, (if value { 1u8 } else { 0u8 })),
            final(self).spec_power_down() == value,
            final(self).spec_nap_mode_enabled() == old(self).spec_nap_mode_enabled(),
            final(self).spec_reset_pin_function() == old(self).spec_reset_pin_function(),
            final(self).spec_input_alarm_enabled() == old(self).spec_input_alarm_enabled(),
            final(self).spec_vdd_alarm_enabled() == old(self).spec_vdd_alarm_enabled(),
    {
        let enc: u8 = if value { 1 } else { 0 };
        let nb = put_field8(self.bits, 0, 1, enc);
        proof {
            lemma_masks();
            lemma_field8(self.bits, 0, 1, enc, 0, 1);
            lemma_field8(self.bits, 0, 1, enc, 1, 1);
            lemma_field8(self.bits, 0, 1, enc, 2, 1);
            lemma_field8(self.bits, 0, 1, enc, 4, 1);
            lemma_field8(self.bits, 0, 1, enc, 5, 1);
        }
        self.bits = nb;
    }

    /// Sets the field: enables nap mode. Every other bit is kept.
    pub fn set_nap_mode_enabled(&mut self, value: bool)
        ensures
            final(self)@ == with_field8(old(self)@, 1, 1, (if value { 1u8 } else { 0u8 })),
            final(self).spec_nap_mode_enabled() == value,
            final(self).spec_power_down() == old(self).spec_power_down(),
            final(self).spec_reset_pin_function() == old(self).spec_reset_pin_function(),
            final(self).spec_input_alarm_enabled() == old(self).spec_input_alarm_enabled(),
            final(self).spec_vdd_alarm_enabled() == old(self).spec_vdd_alarm_enabled(),
    {
        let enc: u8 = if value { 1 } else { 0 };
        let nb = put_field8(self.bits, 1, 1, enc);
        proof {
            lemma_masks();
            lemma_field8(self.bits, 1, 1, enc, 1, 1);
            lemma_field8(self.bits, 1, 1, enc, 0, 1);
            lemma_field8(self.bits, 1, 1, enc, 2, 1);
            lemma_field8(self.bits, 1, 1, enc, 4, 1);
            lemma_field8(self.bits, 1, 1, enc, 5, 1);
        }
        self.bits = nb;
    }

    /// Sets the field: what a signal on the reset pin does. Every other bit is kept.
    pub fn set_reset_pin_function(&mut self, value: ResetPinFunction)
        ensures
            final(self)@ == with_field8(old(self)@, 2, 1, value.spec_into_bits()),
            final(self).spec_reset_pin_function() == value,
            final(self).spec_power_down() == old(self).spec_power_down(),
            final(self).spec_nap_mode_enabled() == old(self).spec_nap_mode_enabled(),
            final(self).spec_input_alarm_enabled() == old(self).spec_input_alarm_enabled(),
            final(self).spec_vdd_alarm_enabled() == old(self).spec_vdd_alarm_enabled(),
    {
        let enc = value.into_bits();
        let nb = put_field8(self.bits, 2, 1, enc);
        proof {
            lemma_masks();
            lemma_field8(self.bits, 2, 1, enc, 2, 1);
            lemma_field8(self.bits, 2, 1, enc, 0, 1);
            lemma_field8(self.bits, 2, 1, enc, 1, 1);
            lemma_field8(self.bits, 2, 1, enc, 4, 1);
            lemma_field8(self.bits, 2, 1, enc, 5, 1);
        }
        self.bits = nb;
    }

    /// Sets the field: enables the input alarm. Every other bit is kept.
    pub fn set_input_alarm_enabled(&mut self, value: bool)
        ensures
            final(self)@ == with_field8(old(self)@, 4, 1, (if value { 1u8 } else { 0u8 })),
            final(self).spec_input_alarm_enabled() == value,
            final(self).spec_power_down() == old(self).spec_power_down(),
            final(self).spec_nap_mode_enabled() == old(self).spec_nap_mode_enabled(),
            final(self).spec_reset_pin_function() == old(self).spec_reset_pin_function(),
            final(self).spec_vdd_alarm_enabled() == old(self).spec_vdd_alarm_enabled(),
    {
        let enc: u8 = if value { 1 } else { 0 };
        let nb = put_field8(self.bits, 4, 1, enc);
        proof {
            lemma_masks();
            lemma_field8(self.bits, 4, 1, enc, 4, 1);
            lemma_field8(self.bits, 4, 1, enc, 0, 1);
            lemma_field8(self.bits, 4, 1, enc, 1, 1);
            lemma_field8(self.bits, 4, 1, enc, 2, 1);
            lemma_field8(self.bits, 4, 1, enc, 5, 1);
        }
        self.bits = nb;
    }

    /// Sets the field: enables the AVDD alarm. Every other bit is kept.
    pub fn set_vdd_alarm_enabled(&mut self, value: bool)
        ensures
            final(self)@ == with_field8(old(self)@, 5, 1, (if value { 1u8 } else { 0u8 })),
            final(self).spec_vdd_alarm_enabled() == value,
            final(self).spec_power_down() == old(self).spec_power_down(),
            final(self).spec_nap_mode_enabled() == old(self).spec_nap_mode_enabled(),
            final(self).spec_reset_pin_function() == old(self).spec_reset_pin_function(),
            final(self).spec_input_alarm_enabled() == old(self).spec_input_alarm_enabled(),
    {
        let enc: u8 = if value { 1 } else { 0 };
        let nb = put_field8(self.bits, 5, 1, enc);
        proof {
            lemma_masks();
            lemma_field8(self.bits, 5, 1, enc, 5, 1);
            lemma_field8(self.bits, 5, 1, enc, 0, 1);
            lemma_field8(self.bits, 5, 1, enc, 1, 1);
            lemma_field8(self.bits, 5, 1, enc, 2, 1);
            lemma_field8(self.bits, 5, 1, enc, 4, 1);
        }
        self.bits = nb;
    }

}

/// A builder for [`RstPwrCtrl`] values: starts from the cleared register and
/// sets one field per call.
pub struct RstPwrCtrlBuilder {
    this: RstPwrCtrl,
}

impl View for RstPwrCtrlBuilder {
    type V = u8;

    /// The raw bits of the value under construction.
    closed spec fn view(&self) -> u8 {
        self.this@
    }
}

impl RstPwrCtrlBuilder {
    /// A builder for the cleared register value.
    pub fn new() -> (r: Self)
        ensures
            r@ == 0,
    {
        Self { this: RstPwrCtrl::new() }
    }

    /// Sets the field: puts the device in power-down mode.
    pub fn with_power_down(self, value: bool) -> (r: Self)
        ensures
            r@ == with_field8(self@, 0, 1, (if value { 1u8 } else { 0u8 })),
            (r@ >> 0u8) & 1u8 == (if value { 1u8 } else { 0u8 }),
    {
        let mut this = self.this;
        this.set_power_down(value);
        proof {
            lemma_masks();
            lemma_field8(self@, 0, 1, (if value { 1u8 } else { 0u8 }), 0, 1);
        }
        Self { this }
    }

    /// Sets the field: enables nap mode.
    pub fn with_nap_mode_enabled(self, value: bool) -> (r: Self)
        ensures
            r@ == with_field8(self@, 1, 1, (if value { 1u8 } else { 0u8 })),
            (r@ >> 1u8) & 1u8 == (if value { 1u8 } else { 0u8 }),
    {
        let mut this = self.this;
        this.set_nap_mode_enabled(value);
        proof {
            lemma_masks();
            lemma_field8(self@, 1, 1, (if value { 1u8 } else { 0u8 }), 1, 1);
        }
        Self { this }
    }

    /// Sets the field: what a signal on the reset pin does.
    pub fn with_reset_pin_function(self, value: ResetPinFunction) -> (r: Self)
        ensures
            r@ == with_field8(self@, 2, 1, value.spec_into_bits()),
            (r@ >> 2u8) & 1u8 == value.spec_into_bits(),
    {
        let mut this = self.this;
        this.set_reset_pin_function(value);
        proof {
            lemma_masks();
            lemma_field8(self@, 2, 1, value.spec_into_bits(), 2, 1);
        }
        Self { this }
    }

    /// Sets the field: enables the input alarm.
    pub fn with_input_alarm_enabled(self, value: bool) -> (r: Self)
        ensures
            r@ == with_field8(self@, 4, 1, (if value { 1u8 } else { 0u8 })),
            (r@ >> 4u8) & 1u8 == (if value { 1u8 } else { 0u8 }),
    {
        let mut this = self.this;
        this.set_input_alarm_enabled(value);
        proof {
            lemma_masks();
            lemma_field8(self@, 4, 1, (if value { 1u8 } else { 0u8 }), 4, 1);
        }
        Self { this }
    }

    /// Sets the field: enables the AVDD alarm.
    pub fn with_vdd_alarm_enabled(self, value: bool) -> (r: Self)
        ensures
            r@ == with_field8(self@, 5, 1, (if value { 1u8 } else { 0u8 })),
            (r@ >> 5u8) & 1u8 == (if value { 1u8 } else { 0u8 }),
    {
        let mut this = self.this;
        this.set_vdd_alarm_enabled(value);
        proof {
            lemma_masks();
            lemma_field8(self@, 5, 1, (if value { 1u8 } else { 0u8 }), 5, 1);
        }
        Self { this }
    }

    /// The value built.
    pub fn build(self) -> (r: RstPwrCtrl)
        ensures
            r@ == self@,
    {
        self.this
    }
}

/// The SDI control register: the clock phase and polarity of the serial
/// data input protocol.
#[derive(Debug, Clone, Copy, PartialEq, Eq, Structural)]
pub struct SdiMode {
    bits: u8,
}

impl View for SdiMode {
    type V = u8;

    /// The raw register bits.
    closed spec fn view(&self) -> u8 {
        self.bits
    }
}

impl SdiMode {
    /// The register value with the given raw bits.
    pub closed spec fn with_bits(bits: u8) -> Self {
        SdiMode { bits }
    }

    /// The register value with the given raw bits has those bits.
    pub proof fn lemma_with_bits(bits: u8)
        ensures
            Self::with_bits(bits)@ == bits,
    {
    }

    /// The bits of the value that raw bits decode to: the bits themselves.
    pub open spec fn canonical_bits(bits: u8) -> u8 {
        bits
    }

    /// The `cphase` field (clock phase), bits 0..1.
    pub open spec fn spec_cphase(self) -> bool {
        flag8(self@, 0)
    }

    /// The `cpol` field (clock polarity), bits 1..2.
    pub open spec fn spec_cpol(self) -> bool {
        flag8(self@, 1)
    }

    /// Where each field sits in the register bits, least significant bit 0:
    /// `cphase` bit 0; `cpol` bit 1.
    pub proof fn lemma_layout(v: Self)
        ensures
            v.spec_cphase() == ((v@ >> 0u8) & 1u8 != 0),
            v.spec_cpol() == ((v@ >> 1u8) & 1u8 != 0),
    {
        lemma_masks();
    }

    /// A register value with every bit cleared.
    pub fn new() -> (r: Self)
        ensures
            r@ == 0,
    {
        Self { bits: 0 }
    }

    /// The register value with the given raw bits.
    pub fn from_bits(bits: u8) -> (r: Self)
        ensures
            r@ == bits,
            r@ == Self::canonical_bits(bits),
    {
        Self { bits }
    }

    /// The raw register bits.
    pub fn into_bits(self) -> (r: u8)
        ensures
            r == self@,
    {
        self.bits
    }

    /// Reads the field: clock phase.
    pub fn cphase(&self) -> (r: bool)
        ensures
            r == self.spec_cphase(),
    {
        get_field8(self.bits, 0, 1) != 0
    }

    /// Reads the field: clock polarity.
    pub fn cpol(&self) -> (r: bool)
        ensures
            r == self.spec_cpol(),
    {
        get_field8(self.bits, 1, 1) != 0
    }

    /// Sets the field: clock phase. Every other bit is kept.
    pub fn set_cphase(&mut self, value: bool)
        ensures
            final(self)@ == with_field8(old(self)@, 0, 1, (if value { 1u8 } else { 0u8 })),
            final(self).spec_cphase() == value,
            final(self).spec_cpol() == old(self).spec_cpol(),
    {
        let enc: u8 = if value { 1 } else { 0 };
        let nb = put_field8(self.bits, 0, 1, enc);
        proof {
            lemma_masks();
            lemma_field8(self.bits, 0, 1, enc, 0, 1);
            lemma_field8(self.bits, 0, 1, enc, 1, 1);
        }
        self.bits = nb;
    }

    /// Sets the field: clock polarity. Every other bit is kept.
    pub fn set_cpol(&mut self, value: bool)
        ensures
            final(self)@ == with_field8(old(self)@, 1, 1, (if value { 1u8 } else { 0u8 })),
            final(self).spec_cpol() == value,
            final(self).spec_cphase() == old(self).spec_cphase(),
    {
        let enc: u8 = if value { 1 } else { 0 };
        let nb = put_field8(self.bits, 1, 1, enc);
        proof {
            lemma_masks();
            lemma_field8(self.bits, 1, 1, enc, 1, 1);
            lemma_field8(self.bits, 1, 1, enc, 0, 1);
        }
        self.bits = nb;
    }

}

/// A builder for [`SdiMode`] values: starts from the cleared register and
/// sets one field per call.
pub struct SdiModeBuilder {
    this: SdiMode,
}

impl View for SdiModeBuilder {
    type V = u8;

    /// The raw bits of the value under construction.
    closed spec fn view(&self) -> u8 {
        self.this@
    }
}

impl SdiModeBuilder {
    /// A builder for the cleared register value.
    pub fn new() -> (r: Self)
        ensures
            r@ == 0,
    {
        Self { this: SdiMode::new() }
    }

    /// Sets the field: clock phase.
    pub fn with_cphase(self, value: bool) -> (r: Self)
        ensures
            r@ == with_field8(self@, 0, 1, (if value { 1u8 } else { 0u8 })),
            (r@ >> 0u8) & 1u8 == (if value { 1u8 } else { 0u8 }),
    {
        let mut this = self.this;
        this.set_cphase(value);
        proof {
            lemma_masks();
            lemma_field8(self@, 0, 1, (if value { 1u8 } else { 0u8 }), 0, 1);
        }
        Self { this }
    }

    /// Sets the field: clock polarity.
    pub fn with_cpol(self, value: bool) -> (r: Self)
        ensures
            r@ == with_field8(self@, 1, 1, (if value { 1u8 } else { 0u8 })),
            (r@ >> 1u8) & 1u8 == (if value { 1u8 } else { 0u8 }),
    {
        let mut this = self.this;
        this.set_cpol(value);
        proof {
            lemma_masks();
            lemma_field8(self@, 1, 1, (if value { 1u8 } else { 0u8 }), 1, 1);
        }
        Self { this }
    }

    /// The value built.
    pub fn build(self) -> (r: SdiMode)
        ensures
            r@ == self@,
    {
        self.this
    }
}

/// The SDO control register: how the serial data output pins behave.
#[derive(Debug, Clone, Copy, PartialEq, Eq, Structural)]
pub struct SdoCtl {
    bits: u16,
}

impl View for SdoCtl {
    type V = u16;

    /// The raw register bits.
    closed spec fn view(&self) -> u16 {
        self.bits
    }
}

impl SdoCtl {
    /// The sdo_mode field holds the code of one of its values.
    #[verifier::type_invariant]
    pub open spec fn wf(self) -> bool {
        SdoMode::is_canonical(field16(self@, 0, 2) as u8)
    }

    /// The register value with the given raw bits.
    pub closed spec fn with_bits(bits: u16) -> Self {
        SdoCtl { bits }
    }

    /// The register value with the given raw bits has those bits.
    pub proof fn lemma_with_bits(bits: u16)
        ensures
            Self::with_bits(bits)@ == bits,
    {
    }

    /// The bits of the value that raw bits decode to: the sdo_mode field
    /// holds the code of the value it decodes to, every other bit is kept.
    pub open spec fn canonical_bits(bits: u16) -> u16 {
        with_field16(bits, 0, 2, (SdoMode::spec_from_bits(field16(bits, 0, 2) as u8).spec_into_bits() as u16))
    }

    /// Bits whose field already holds a code are their own canonical bits.
    pub proof fn lemma_canonical_bits(bits: u16)
        requires
            SdoMode::is_canonical(field16(bits, 0, 2) as u8),
        ensures
            Self::canonical_bits(bits) == bits,
    {
        lemma_masks();
        lemma_field16(bits, 0, 2, 0, 0, 2);
    }

    /// The `sdo_mode` field (how the SDO pin should behave), bits 0..2.
    pub open spec fn spec_sdo_mode(self) -> SdoMode {
        SdoMode::spec_from_bits(field16(self@, 0, 2) as u8)
    }

    /// The `use_internal_clock` field (clocks the output data with the internal clock), bits 6..7.
    pub open spec fn spec_use_internal_clock(self) -> bool {
        flag16(self@, 6)
    }

    /// The `sdo1_config` field (how the SDO1 pin should behave), bits 8..10.
    pub open spec fn spec_sdo1_config(self) -> Sdo1Mode {
        Sdo1Mode::spec_from_bits(field16(self@, 8, 2) as u8)
    }

    /// The `gpo_val` field (value of SDO1 when it functions as a general purpose output), bits 12..13.
    pub open spec fn spec_gpo_val(self) -> bool {
        flag16(self@, 12)
    }

    /// Where each field sits in the register bits, least significant bit 0:
    /// `sdo_mode` bits 0..2; `use_internal_clock` bit 6; `sdo1_config` bits 8..10; `gpo_val` bit 12.
    pub proof fn lemma_layout(v: Self)
        ensures
            v.spec_sdo_mode() == SdoMode::spec_from_bits(((v@ >> 0u16) & 3u16) as u8),
            v.spec_use_internal_clock() == ((v@ >> 6u16) & 1u16 != 0),
            v.spec_sdo1_config() == Sdo1Mode::spec_from_bits(((v@ >> 8u16) & 3u16) as u8),
            v.spec_gpo_val() == ((v@ >> 12u16) & 1u16 != 0),
    {
        lemma_masks();
    }

    /// A register value with every bit cleared.
    pub fn new() -> (r: Self)
        ensures
            r@ == 0,
    {
        proof {
            lemma_masks();
            lemma_field16(0, 0, 2, 0, 0, 2);
        }
        Self { bits: 0 }
    }

    /// The register value with the given raw bits.
    /// The sdo_mode field is replaced by the code of the value it decodes to,
    /// so a code that is not canonical is normalized; every other bit is kept.
    pub fn from_bits(bits: u16) -> (r: Self)
        ensures
            r@ == Self::canonical_bits(bits),
            r.spec_sdo_mode() == SdoMode::spec_from_bits(field16(bits, 0, 2) as u8),
            SdoMode::is_canonical(field16(bits, 0, 2) as u8) ==> r@ == bits,
    {
        let code = get_field16(bits, 0, 2);
        let value = SdoMode::from_bits(code as u8);
        let enc = value.into_bits();
        let nb = put_field16(bits, 0, 2, enc as u16);
        proof {
            lemma_masks();
            lemma_field16(bits, 0, 2, enc as u16, 0, 2);
        }
        Self { bits: nb }
    }

    /// The raw register bits.
    pub fn into_bits(self) -> (r: u16)
        ensures
            r == self@,
    {
        self.bits
    }

    /// Reads the field: how the SDO pin should behave.
    pub fn sdo_mode(&self) -> (r: SdoMode)
        ensures
            r == self.spec_sdo_mode(),
    {
        proof {
            use_type_invariant(self);
        }
        SdoMode::from_bits(get_field16(self.bits, 0, 2) as u8)
    }

    /// Reads the field: clocks the output data with the internal clock.
    pub fn use_internal_clock(&self) -> (r: bool)
        ensures
            r == self.spec_use_internal_clock(),
    {
        get_field16(self.bits, 6, 1) != 0
    }

    /// Reads the field: how the SDO1 pin should behave.
    pub fn sdo1_config(&self) -> (r: Sdo1Mode)
        ensures
            r == self.spec_sdo1_config(),
    {
        proof {
            use_type_invariant(self);
        }
        proof {
            lemma_masks();
            lemma_field16(self.bits, 8, 2, 0, 8, 2);
        }
        Sdo1Mode::from_bits(get_field16(self.bits, 8, 2) as u8)
    }

    /// Reads the field: value of SDO1 when it functions as a general purpose output.
    pub fn gpo_val(&self) -> (r: bool)
        ensures
            r == self.spec_gpo_val(),
    {
        get_field16(self.bits, 12, 1) != 0
    }

    /// Sets the field: how the SDO pin should behave. Every other bit is kept.
    pub fn set_sdo_mode(&mut self, value: SdoMode)
        ensures
            final(self)@ == with_field16(old(self)@, 0, 2, (value.spec_into_bits() as u16)),
            final(self).spec_sdo_mode() == value,
            final(self).spec_use_internal_clock() == old(self).spec_use_internal_clock(),
            final(self).spec_sdo1_config() == old(self).spec_sdo1_config(),
            final(self).spec_gpo_val() == old(self).spec_gpo_val(),
    {
        proof {
            use_type_invariant(&*self);
        }
        let enc = value.into_bits() as u16;
        let nb = put_field16(self.bits, 0, 2, enc);
        proof {
            lemma_masks();
            lemma_field16(self.bits, 0, 2, enc, 0, 2);
            lemma_field16(self.bits, 0, 2, enc, 6, 1);
            lemma_field16(self.bits, 0, 2, enc, 8, 2);
            lemma_field16(self.bits, 0, 2, enc, 12, 1);
        }
        self.bits = nb;
    }

    /// Sets the field: clocks the output data with the internal clock. Every other bit is kept.
    pub fn set_use_internal_clock(&mut self, value: bool)
        ensures
            final(self)@ == with_field16(old(self)@, 6, 1, (if value { 1u16 } else { 0u16 })),
            final(self).spec_use_internal_clock() == value,
            final(self).spec_sdo_mode() == old(self).spec_sdo_mode(),
            final(self).spec_sdo1_config() == old(self).spec_sdo1_config(),
            final(self).spec_gpo_val() == old(self).spec_gpo_val(),
    {
        proof {
            use_type_invariant(&*self);
        }
        let enc: u16 = if value { 1 } else { 0 };
        let nb = put_field16(self.bits, 6, 1, enc);
        proof {
            lemma_masks();
            lemma_field16(self.bits, 6, 1, enc, 6, 1);
            lemma_field16(self.bits, 6, 1, enc, 0, 2);
            lemma_field16(self.bits, 6, 1, enc, 8, 2);
            lemma_field16(self.bits, 6, 1, enc, 12, 1);
        }
        self.bits = nb;
    }

    /// Sets the field: how the SDO1 pin should behave. Every other bit is kept.
    pub fn set_sdo1_config(&mut self, value: Sdo1Mode)
        ensures
            final(self)@ == with_field16(old(self)@, 8, 2, (value.spec_into_bits() as u16)),
            final(self).spec_sdo1_config() == value,
            final(self).spec_sdo_mode() == old(self).spec_sdo_mode(),
            final(self).spec_use_internal_clock() == old(self).spec_use_internal_clock(),
            final(self).spec_gpo_val() == old(self).spec_gpo_val(),
    {
        proof {
            use_type_invariant(&*self);
        }
        let enc = value.into_bits() as u16;
        let nb = put_field16(self.bits, 8, 2, enc);
        proof {
            lemma_masks();
            lemma_field16(self.bits, 8, 2, enc, 8, 2);
            lemma_field16(self.bits, 8, 2, enc, 0, 2);
            lemma_field16(self.bits, 8, 2, enc, 6, 1);
            lemma_field16(self.bits, 8, 2, enc, 12, 1);
        }
        self.bits = nb;
    }

    /// Sets the field: value of SDO1 when it functions as a general purpose output. Every other bit is kept.
    pub fn set_gpo_val(&mut self, value: bool)
        ensures
            final(self)@ == with_field16(old(self)@, 12, 1, (if value { 1u16 } else { 0u16 })),
            final(self).spec_gpo_val() == value,
            final(self).spec_sdo_mode() == old(self).spec_sdo_mode(),
            final(self).spec_use_internal_clock() == old(self).spec_use_internal_clock(),
            final(self).spec_sdo1_config() == old(self).spec_sdo1_config(),
    {
        proof {
            use_type_invariant(&*self);
        }
        let enc: u16 = if value { 1 } else { 0 };
        let nb = put_field16(self.bits, 12, 1, enc);
        proof {
            lemma_masks();
            lemma_field16(self.bits, 12, 1, enc, 12, 1);
            lemma_field16(self.bits, 12, 1, enc, 0, 2);
            lemma_field16(self.bits, 12, 1, enc, 6, 1);
            lemma_field16(self.bits, 12, 1, enc, 8, 2);
        }
        self.bits = nb;
    }

}

/// A builder for [`SdoCtl`] values: starts from the cleared register and
/// sets one field per call.
pub struct SdoCtlBuilder {
    this: SdoCtl,
}

impl View for SdoCtlBuilder {
    type V = u16;

    /// The raw bits of the value under construction.
    closed spec fn view(&self) -> u16 {
        self.this@
    }
}

impl SdoCtlBuilder {
    /// A builder for the cleared register value.
    pub fn new() -> (r: Self)
        ensures
            r@ == 0,
    {
        Self { this: SdoCtl::new() }
    }

    /// Sets the field: how the SDO pin should behave.
    pub fn with_sdo_mode(self, value: SdoMode) -> (r: Self)
        ensures
            r@ == with_field16(self@, 0, 2, (value.spec_into_bits() as u16)),
            (r@ >> 0u16) & 3u16 == (value.spec_into_bits() as u16),
    {
        let mut this = self.this;
        this.set_sdo_mode(value);
        proof {
            lemma_masks();
            lemma_field16(self@, 0, 2, (value.spec_into_bits() as u16), 0, 2);
        }
        Self { this }
    }

    /// Sets the field: clocks the output data with the internal clock.
    pub fn with_use_internal_clock(self, value: bool) -> (r: Self)
        ensures
            r@ == with_field16(self@, 6, 1, (if value { 1u16 } else { 0u16 })),
            (r@ >> 6u16) & 1u16 == (if value { 1u16 } else { 0u16 }),
    {
        let mut this = self.this;
        this.set_use_internal_clock(value);
        proof {
            lemma_masks();
            lemma_field16(self@, 6, 1, (if value { 1u16 } else { 0u16 }), 6, 1);
        }
        Self { this }
    }

    /// Sets the field: how the SDO1 pin should behave.
    pub fn with_sdo1_config(self, value: Sdo1Mode) -> (r: Self)
        ensures
            r@ == with_field16(self@, 8, 2, (value.spec_into_bits() as u16)),
            (r@ >> 8u16) & 3u16 == (value.spec_into_bits() as u16),
    {
        let mut this = self.this;
        this.set_sdo1_config(value);
        proof {
            lemma_masks();
            lemma_field16(self@, 8, 2, (value.spec_into_bits() as u16), 8, 2);
        }
        Self { this }
    }

    /// Sets the field: value of SDO1 when it functions as a general purpose output.
    pub fn with_gpo_val(self, value: bool) -> (r: Self)
        ensures
            r@ == with_field16(self@, 12, 1, (if value { 1u16 } else { 0u16 })),
            (r@ >> 12u16) & 1u16 == (if value { 1u16 } else { 0u16 }),
    {
        let mut this = self.this;
        this.set_gpo_val(value);
        proof {
            lemma_masks();
            lemma_field16(self@, 12, 1, (if value { 1u16 } else { 0u16 }), 12, 1);
        }
        Self { this }
    }

    /// The value built.
    pub fn build(self) -> (r: SdoCtl)
        ensures
            r@ == self@,
    {
        self.this
    }
}

/// The data out control register: which flags are appended to the conversion
/// result of every output data word, and how the conversion data is encoded.
#[derive(Debug, Clone, Copy, PartialEq, Eq, Structural)]
pub struct DataOutCtl {
    bits: u16,
}

impl View for DataOutCtl {
    type V = u16;

    /// The raw register bits.
    closed spec fn view(&self) -> u16 {
        self.bits
    }
}

impl DataOutCtl {
    /// The data_val field holds the code of one of its values.
    #[verifier::type_invariant]
    pub open spec fn wf(self) -> bool {
        DataVal::is_canonical(field16(self@, 0, 3) as u8)
    }

    /// The register value with the given raw bits.
    pub closed spec fn with_bits(bits: u16) -> Self {
        DataOutCtl { bits }
    }

    /// The register value with the given raw bits has those bits.
    pub proof fn lemma_with_bits(bits: u16)
        ensures
            Self::with_bits(bits)@ == bits,
    {
    }

    /// The bits of the value that raw bits decode to: the data_val field
    /// holds the code of the value it decodes to, every other bit is kept.
    pub open spec fn canonical_bits(bits: u16) -> u16 {
        with_field16(bits, 0, 3, (DataVal::spec_from_bits(field16(bits, 0, 3) as u8).spec_into_bits() as u16))
    }

    /// Bits whose field already holds a code are their own canonical bits.
    pub proof fn lemma_canonical_bits(bits: u16)
        requires
            DataVal::is_canonical(field16(bits, 0, 3) as u8),
        ensures
            Self::canonical_bits(bits) == bits,
    {
        lemma_masks();
        lemma_field16(bits, 0, 3, 0, 0, 3);
    }

    /// The `data_val` field (how the conversion data bits are encoded), bits 0..3.
    pub open spec fn spec_data_val(self) -> DataVal {
        DataVal::spec_from_bits(field16(self@, 0, 3) as u8)
    }

    /// The `enable_parity_bits` field (appends two parity bits), bits 3..4.
    pub open spec fn spec_enable_parity_bits(self) -> bool {
        flag16(self@, 3)
    }

    /// The `include_range_value` field (appends the four-bit input range code), bits 8..9.
    pub open spec fn spec_include_range_value(self) -> bool {
        flag16(self@, 8)
    }

    /// The `include_active_in_h_flag` field (appends the input alarm high flag), bits 10..11.
    pub open spec fn spec_include_active_in_h_flag(self) -> bool {
        flag16(self@, 10)
    }

    /// The `include_active_in_l_flag` field (appends the input alarm low flag), bits 11..12.
    pub open spec fn spec_include_active_in_l_flag(self) -> bool {
        flag16(self@, 11)
    }

    /// The `include_active_vdd_h_flag` field (appends the AVDD alarm high flag), bits 12..13.
    pub open spec fn spec_include_active_vdd_h_flag(self) -> bool {
        flag16(self@, 12)
    }

    /// The `include_active_vdd_l_flag` field (appends the AVDD alarm low flag), bits 13..14.
    pub open spec fn spec_include_active_vdd_l_flag(self) -> bool {
        flag16(self@, 13)
    }

    /// The `include_device_addr_value` field (appends the four-bit device address), bits 14..15.
    pub open spec fn spec_include_device_addr_value(self) -> bool {
        flag16(self@, 14)
    }

    /// Where each field sits in the register bits, least significant bit 0:
    /// `data_val` bits 0..3; `enable_parity_bits` bit 3; `include_range_value` bit 8; `include_active_in_h_flag` bit 10; `include_active_in_l_flag` bit 11; `include_active_vdd_h_flag` bit 12; `include_active_vdd_l_flag` bit 13; `include_device_addr_value` bit 14.
    pub proof fn lemma_layout(v: Self)
        ensures
            v.spec_data_val() == DataVal::spec_from_bits(((v@ >> 0u16) & 7u16) as u8),
            v.spec_enable_parity_bits() == ((v@ >> 3u16) & 1u16 != 0),
            v.spec_include_range_value() == ((v@ >> 8u16) & 1u16 != 0),
            v.spec_include_active_in_h_flag() == ((v@ >> 10u16) & 1u16 != 0),
            v.spec_include_active_in_l_flag() == ((v@ >> 11u16) & 1u16 != 0),
            v.spec_include_active_vdd_h_flag() == ((v@ >> 12u16) & 1u16 != 0),
            v.spec_include_active_vdd_l_flag() == ((v@ >> 13u16) & 1u16 != 0),
            v.spec_include_device_addr_value() == ((v@ >> 14u16) & 1u16 != 0),
    {
        lemma_masks();
    }

    /// A register value with every bit cleared.
    pub fn new() -> (r: Self)
        ensures
            r@ == 0,
    {
        proof {
            lemma_masks();
            lemma_field16(0, 0, 3, 0, 0, 3);
        }
        Self { bits: 0 }
    }

    /// The register value with the given raw bits.
    /// The data_val field is replaced by the code of the value it decodes to,
    /// so a code that is not canonical is normalized; every other bit is kept.
    pub fn from_bits(bits: u16) -> (r: Self)
        ensures
            r@ == Self::canonical_bits(bits),
            r.spec_data_val() == DataVal::spec_from_bits(field16(bits, 0, 3) as u8),
            DataVal::is_canonical(field16(bits, 0, 3) as u8) ==> r@ == bits,
    {
        let code = get_field16(bits, 0, 3);
        let value = DataVal::from_bits(code as u8);
        let enc = value.into_bits();
        let nb = put_field16(bits, 0, 3, enc as u16);
        proof {
            lemma_masks();
            lemma_field16(bits, 0, 3, enc as u16, 0, 3);
        }
        Self { bits: nb }
    }

    /// The raw register bits.
    pub fn into_bits(self) -> (r: u16)
        ensures
            r == self@,
    {
        self.bits
    }

    /// Reads the field: how the conversion data bits are encoded.
    pub fn data_val(&self) -> (r: DataVal)
        ensures
            r == self.spec_data_val(),
    {
        proof {
            use_type_invariant(self);
        }
        DataVal::from_bits(get_field16(self.bits, 0, 3) as u8)
    }

    /// Reads the field: appends two parity bits.
    pub fn enable_parity_bits(&self) -> (r: bool)
        ensures
            r == self.spec_enable_parity_bits(),
    {
        get_field16(self.bits, 3, 1) != 0
    }

    /// Reads the field: appends the four-bit input range code.
    pub fn include_range_value(&self) -> (r: bool)
        ensures
            r == self.spec_include_range_value(),
    {
        get_field16(self.bits, 8, 1) != 0
    }

    /// Reads the field: appends the input alarm high flag.
    pub fn include_active_in_h_flag(&self) -> (r: bool)
        ensures
            r == self.spec_include_active_in_h_flag(),
    {
        get_field16(self.bits, 10, 1) != 0
    }

    /// Reads the field: appends the input alarm low flag.
    pub fn include_active_in_l_flag(&self) -> (r: bool)
        ensures
            r == self.spec_include_active_in_l_flag(),
    {
        get_field16(self.bits, 11, 1) != 0
    }

    /// Reads the field: appends the AVDD alarm high flag.
    pub fn include_active_vdd_h_flag(&self) -> (r: bool)
        ensures
            r == self.spec_include_active_vdd_h_flag(),
    {
        get_field16(self.bits, 12, 1) != 0
    }

    /// Reads the field: appends the AVDD alarm low flag.
    pub fn include_active_vdd_l_flag(&self) -> (r: bool)
        ensures
            r == self.spec_include_active_vdd_l_flag(),
    {
        get_field16(self.bits, 13, 1) != 0
    }

    /// Reads the field: appends the four-bit device address.
    pub fn include_device_addr_value(&self) -> (r: bool)
        ensures
            r == self.spec_include_device_addr_value(),
    {
        get_field16(self.bits, 14, 1) != 0
    }

    /// Sets the field: how the conversion data bits are encoded. Every other bit is kept.
    pub fn set_data_val(&mut self, value: DataVal)
        ensures
            final(self)@ == with_field16(old(self)@, 0, 3, (value.spec_into_bits() as u16)),
            final(self).spec_data_val() == value,
            final(self).spec_enable_parity_bits() == old(self).spec_enable_parity_bits(),
            final(self).spec_include_range_value() == old(self).spec_include_range_value(),
            final(self).spec_include_active_in_h_flag() == old(self).spec_include_active_in_h_flag(),
            final(self).spec_include_active_in_l_flag() == old(self).spec_include_active_in_l_flag(),
            final(self).spec_include_active_vdd_h_flag() == old(self).spec_include_active_vdd_h_flag(),
            final(self).spec_include_active_vdd_l_flag() == old(self).spec_include_active_vdd_l_flag(),
            final(self).spec_include_device_addr_value() == old(self).spec_include_device_addr_value(),
    {
        proof {
            use_type_invariant(&*self);
        }
        let enc = value.into_bits() as u16;
        let nb = put_field16(self.bits, 0, 3, enc);
        proof {
            lemma_masks();
            lemma_field16(self.bits, 0, 3, enc, 0, 3);
            lemma_field16(self.bits, 0, 3, enc, 3, 1);
            lemma_field16(self.bits, 0, 3, enc, 8, 1);
            lemma_field16(self.bits, 0, 3, enc, 10, 1);
            lemma_field16(self.bits, 0, 3, enc, 11, 1);
            lemma_field16(self.bits, 0, 3, enc, 12, 1);
            lemma_field16(self.bits, 0, 3, enc, 13, 1);
            lemma_field16(self.bits, 0, 3, enc, 14, 1);
        }
        self.bits = nb;
    }

    /// Sets the field: appends two parity bits. Every other bit is kept.
    pub fn set_enable_parity_bits(&mut self, value: bool)
        ensures
            final(self)@ == with_field16(old(self)@, 3, 1, (if value { 1u16 } else { 0u16 })),
            final(self).spec_enable_parity_bits() == value,
            final(self).spec_data_val() == old(self).spec_data_val(),
            final(self).spec_include_range_value() == old(self).spec_include_range_value(),
            final(self).spec_include_active_in_h_flag() == old(self).spec_include_active_in_h_flag(),
            final(self).spec_include_active_in_l_flag() == old(self).spec_include_active_in_l_flag(),
            final(self).spec_include_active_vdd_h_flag() == old(self).spec_include_active_vdd_h_flag(),
            final(self).spec_include_active_vdd_l_flag() == old(self).spec_include_active_vdd_l_flag(),
            final(self).spec_include_device_addr_value() == old(self).spec_include_device_addr_value(),
    {
        proof {
            use_type_invariant(&*self);
        }
        let enc: u16 = if value { 1 } else { 0 };
        let nb = put_field16(self.bits, 3, 1, enc);
        proof {
            lemma_masks();
            lemma_field16(self.bits, 3, 1, enc, 3, 1);
            lemma_field16(self.bits, 3, 1, enc, 0, 3);
            lemma_field16(self.bits, 3, 1, enc, 8, 1);
            lemma_field16(self.bits, 3, 1, enc, 10, 1);
            lemma_field16(self.bits, 3, 1, enc, 11, 1);
            lemma_field16(self.bits, 3, 1, enc, 12, 1);
            lemma_field16(self.bits, 3, 1, enc, 13, 1);
            lemma_field16(self.bits, 3, 1, enc, 14, 1);
        }
        self.bits = nb;
    }

    /// Sets the field: appends the four-bit input range code. Every other bit is kept.
    pub fn set_include_range_value(&mut self, value: bool)
        ensures
            final(self)@ == with_field16(old(self)@, 8, 1, (if value { 1u16 } else { 0u16 })),
            final(self).spec_include_range_value() == value,
            final(self).spec_data_val() == old(self).spec_data_val(),
            final(self).spec_enable_parity_bits() == old(self).spec_enable_parity_bits(),
            final(self).spec_include_active_in_h_flag() == old(self).spec_include_active_in_h_flag(),
            final(self).spec_include_active_in_l_flag() == old(self).spec_include_active_in_l_flag(),
            final(self).spec_include_active_vdd_h_flag() == old(self).spec_include_active_vdd_h_flag(),
            final(self).spec_include_active_vdd_l_flag() == old(self).spec_include_active_vdd_l_flag(),
            final(self).spec_include_device_addr_value() == old(self).spec_include_device_addr_value(),
    {
        proof {
            use_type_invariant(&*self);
        }
        let enc: u16 = if value { 1 } else { 0 };
        let nb = put_field16(self.bits, 8, 1, enc);
        proof {
            lemma_masks();
            lemma_field16(self.bits, 8, 1, enc, 8, 1);
            lemma_field16(self.bits, 8, 1, enc, 0, 3);
            lemma_field16(self.bits, 8, 1, enc, 3, 1);
            lemma_field16(self.bits, 8, 1, enc, 10, 1);
            lemma_field16(self.bits, 8, 1, enc, 11, 1);
            lemma_field16(self.bits, 8, 1, enc, 12, 1);
            lemma_field16(self.bits, 8, 1, enc, 13, 1);
            lemma_field16(self.bits, 8, 1, enc, 14, 1);
        }
        self.bits = nb;
    }

    /// Sets the field: appends the input alarm high flag. Every other bit is kept.
    pub fn set_include_active_in_h_flag(&mut self, value: bool)
        ensures
            final(self)@ == with_field16(old(self)@, 10, 1, (if value { 1u16 } else { 0u16 })),
            final(self).spec_include_active_in_h_flag() == value,
            final(self).spec_data_val() == old(self).spec_data_val(),
            final(self).spec_enable_parity_bits() == old(self).spec_enable_parity_bits(),
            final(self).spec_include_range_value() == old(self).spec_include_range_value(),
            final(self).spec_include_active_in_l_flag() == old(self).spec_include_active_in_l_flag(),
            final(self).spec_include_active_vdd_h_flag() == old(self).spec_include_active_vdd_h_flag(),
            final(self).spec_include_active_vdd_l_flag() == old(self).spec_include_active_vdd_l_flag(),
            final(self).spec_include_device_addr_value() == old(self).spec_include_device_addr_value(),
    {
        proof {
            use_type_invariant(&*self);
        }
        let enc: u16 = if value { 1 } else { 0 };
        let nb = put_field16(self.bits, 10, 1, enc);
        proof {
            lemma_masks();
            lemma_field16(self.bits, 10, 1, enc, 10, 1);
            lemma_field16(self.bits, 10, 1, enc, 0, 3);
            lemma_field16(self.bits, 10, 1, enc, 3, 1);
            lemma_field16(self.bits, 10, 1, enc, 8, 1);
            lemma_field16(self.bits, 10, 1, enc, 11, 1);
            lemma_field16(self.bits, 10, 1, enc, 12, 1);
            lemma_field16(self.bits, 10, 1, enc, 13, 1);
            lemma_field16(self.bits, 10, 1, enc, 14, 1);
        }
        self.bits = nb;
    }

    /// Sets the field: appends the input alarm low flag. Every other bit is kept.
    pub fn set_include_active_in_l_flag(&mut self, value: bool)
        ensures
            final(self)@ == with_field16(old(self)@, 11, 1, (if value { 1u16 } else { 0u16 })),
            final(self).spec_include_active_in_l_flag() == value,
            final(self).spec_data_val() == old(self).spec_data_val(),
            final(self).spec_enable_parity_bits() == old(self).spec_enable_parity_bits(),
            final(self).spec_include_range_value() == old(self).spec_include_range_value(),
            final(self).spec_include_active_in_h_flag() == old(self).spec_include_active_in_h_flag(),
            final(self).spec_include_active_vdd_h_flag() == old(self).spec_include_active_vdd_h_flag(),
            final(self).spec_include_active_vdd_l_flag() == old(self).spec_include_active_vdd_l_flag(),
            final(self).spec_include_device_addr_value() == old(self).spec_include_device_addr_value(),
    {
        proof {
            use_type_invariant(&*self);
        }
        let enc: u16 = if value { 1 } else { 0 };
        let nb = put_field16(self.bits, 11, 1, enc);
        proof {
            lemma_masks();
            lemma_field16(self.bits, 11, 1, enc, 11, 1);
            lemma_field16(self.bits, 11, 1, enc, 0, 3);
            lemma_field16(self.bits, 11, 1, enc, 3, 1);
            lemma_field16(self.bits, 11, 1, enc, 8, 1);
            lemma_field16(self.bits, 11, 1, enc, 10, 1);
            lemma_field16(self.bits, 11, 1, enc, 12, 1);
            lemma_field16(self.bits, 11, 1, enc, 13, 1);
            lemma_field16(self.bits, 11, 1, enc, 14, 1);
        }
        self.bits = nb;
    }

    /// Sets the field: appends the AVDD alarm high flag. Every other bit is kept.
    pub fn set_include_active_vdd_h_flag(&mut self, value: bool)
        ensures
            final(self)@ == with_field16(old(self)@, 12, 1, (if value { 1u16 } else { 0u16 })),
            final(self).spec_include_active_vdd_h_flag() == value,
            final(self).spec_data_val() == old(self).spec_data_val(),
            final(self).spec_enable_parity_bits() == old(self).spec_enable_parity_bits(),
            final(self).spec_include_range_value() == old(self).spec_include_range_value(),
            final(self).spec_include_active_in_h_flag() == old(self).spec_include_active_in_h_flag(),
            final(self).spec_include_active_in_l_flag() == old(self).spec_include_active_in_l_flag(),
            final(self).spec_include_active_vdd_l_flag() == old(self).spec_include_active_vdd_l_flag(),
            final(self).spec_include_device_addr_value() == old(self).spec_include_device_addr_value(),
    {
        proof {
            use_type_invariant(&*self);
        }
        let enc: u16 = if value { 1 } else { 0 };
        let nb = put_field16(self.bits, 12, 1, enc);
        proof {
            lemma_masks();
            lemma_field16(self.bits, 12, 1, enc, 12, 1);
            lemma_field16(self.bits, 12, 1, enc, 0, 3);
            lemma_field16(self.bits, 12, 1, enc, 3, 1);
            lemma_field16(self.bits, 12, 1, enc, 8, 1);
            lemma_field16(self.bits, 12, 1, enc, 10, 1);
            lemma_field16(self.bits, 12, 1, enc, 11, 1);
            lemma_field16(self.bits, 12, 1, enc, 13, 1);
            lemma_field16(self.bits, 12, 1, enc, 14, 1);
        }
        self.bits = nb;
    }

    /// Sets the field: appends the AVDD alarm low flag. Every other bit is kept.
    pub fn set_include_active_vdd_l_flag(&mut self, value: bool)
        ensures
            final(self)@ == with_field16(old(self)@, 13, 1, (if value { 1u16 } else { 0u16 })),
            final(self).spec_include_active_vdd_l_flag() == value,
            final(self).spec_data_val() == old(self).spec_data_val(),
            final(self).spec_enable_parity_bits() == old(self).spec_enable_parity_bits(),
            final(self).spec_include_range_value() == old(self).spec_include_range_value(),
            final(self).spec_include_active_in_h_flag() == old(self).spec_include_active_in_h_flag(),
            final(self).spec_include_active_in_l_flag() == old(self).spec_include_active_in_l_flag(),
            final(self).spec_include_active_vdd_h_flag() == old(self).spec_include_active_vdd_h_flag(),
            final(self).spec_include_device_addr_value() == old(self).spec_include_device_addr_value(),
    {
        proof {
            use_type_invariant(&*self);
        }
        let enc: u16 = if value { 1 } else { 0 };
        let nb = put_field16(self.bits, 13, 1, enc);
        proof {
            lemma_masks();
            lemma_field16(self.bits, 13, 1, enc, 13, 1);
            lemma_field16(self.bits, 13, 1, enc, 0, 3);
            lemma_field16(self.bits, 13, 1, enc, 3, 1);
            lemma_field16(self.bits, 13, 1, enc, 8, 1);
            lemma_field16(self.bits, 13, 1, enc, 10, 1);
            lemma_field16(self.bits, 13, 1, enc, 11, 1);
            lemma_field16(self.bits, 13, 1, enc, 12, 1);
            lemma_field16(self.bits, 13, 1, enc, 14, 1);
        }
        self.bits = nb;
    }

    /// Sets the field: appends the four-bit device address. Every other bit is kept.
    pub fn set_include_device_addr_value(&mut self, value: bool)
        ensures
            final(self)@ == with_field16(old(self)@, 14, 1, (if value { 1u16 } else { 0u16 })),
            final(self).spec_include_device_addr_value() == value,
            final(self).spec_data_val() == old(self).spec_data_val(),
            final(self).spec_enable_parity_bits() == old(self).spec_enable_parity_bits(),
            final(self).spec_include_range_value() == old(self).spec_include_range_value(),
            final(self).spec_include_active_in_h_flag() == old(self).spec_include_active_in_h_flag(),
            final(self).spec_include_active_in_l_flag() == old(self).spec_include_active_in_l_flag(),
            final(self).spec_include_active_vdd_h_flag() == old(self).spec_include_active_vdd_h_flag(),
            final(self).spec_include_active_vdd_l_flag() == old(self).spec_include_active_vdd_l_flag(),
    {
        proof {
            use_type_invariant(&*self);
        }
        let enc: u16 = if value { 1 } else { 0 };
        let nb = put_field16(self.bits, 14, 1, enc);
        proof {
            lemma_masks();
            lemma_field16(self.bits, 14, 1, enc, 14, 1);
            lemma_field16(self.bits, 14, 1, enc, 0, 3);
            lemma_field16(self.bits, 14, 1, enc, 3, 1);
            lemma_field16(self.bits, 14, 1, enc, 8, 1);
            lemma_field16(self.bits, 14, 1, enc, 10, 1);
            lemma_field16(self.bits, 14, 1, enc, 11, 1);
            lemma_field16(self.bits, 14, 1, enc, 12, 1);
            lemma_field16(self.bits, 14, 1, enc, 13, 1);
        }
        self.bits = nb;
    }

}

/// A builder for [`DataOutCtl`] values: starts from the cleared register and
/// sets one field per call.
pub struct DataOutCtlBuilder {
    this: DataOutCtl,
}

impl View for DataOutCtlBuilder {
    type V = u16;

    /// The raw bits of the value under construction.
    closed spec fn view(&self) -> u16 {
        self.this@
    }
}

impl DataOutCtlBuilder {
    /// A builder for the cleared register value.
    pub fn new() -> (r: Self)
        ensures
            r@ == 0,
    {
        Self { this: DataOutCtl::new() }
    }

    /// Sets the field: how the conversion data bits are encoded.
    pub fn with_data_val(self, value: DataVal) -> (r: Self)
        ensures
            r@ == with_field16(self@, 0, 3, (value.spec_into_bits() as u16)),
            (r@ >> 0u16) & 7u16 == (value.spec_into_bits() as u16),
    {
        let mut this = self.this;
        this.set_data_val(value);
        proof {
            lemma_masks();
            lemma_field16(self@, 0, 3, (value.spec_into_bits() as u16), 0, 3);
        }
        Self { this }
    }

    /// Sets the field: appends two parity bits.
    pub fn with_enable_parity_bits(self, value: bool) -> (r: Self)
        ensures
            r@ == with_field16(self@, 3, 1, (if value { 1u16 } else { 0u16 })),
            (r@ >> 3u16) & 1u16 == (if value { 1u16 } else { 0u16 }),
    {
        let mut this = self.this;
        this.set_enable_parity_bits(value);
        proof {
            lemma_masks();
            lemma_field16(self@, 3, 1, (if value { 1u16 } else { 0u16 }), 3, 1);
        }
        Self { this }
    }

    /// Sets the field: appends the four-bit input range code.
    pub fn with_include_range_value(self, value: bool) -> (r: Self)
        ensures
            r@ == with_field16(self@, 8, 1, (if value { 1u16 } else { 0u16 })),
            (r@ >> 8u16) & 1u16 == (if value { 1u16 } else { 0u16 }),
    {
        let mut this = self.this;
        this.set_include_range_value(value);
        proof {
            lemma_masks();
            lemma_field16(self@, 8, 1, (if value { 1u16 } else { 0u16 }), 8, 1);
        }
        Self { this }
    }

    /// Sets the field: appends the input alarm high flag.
    pub fn with_include_active_in_h_flag(self, value: bool) -> (r: Self)
        ensures
            r@ == with_field16(self@, 10, 1, (if value { 1u16 } else { 0u16 })),
            (r@ >> 10u16) & 1u16 == (if value { 1u16 } else { 0u16 }),
    {
        let mut this = self.this;
        this.set_include_active_in_h_flag(value);
        proof {
            lemma_masks();
            lemma_field16(self@, 10, 1, (if value { 1u16 } else { 0u16 }), 10, 1);
        }
        Self { this }
    }

    /// Sets the field: appends the input alarm low flag.
    pub fn with_include_active_in_l_flag(self, value: bool) -> (r: Self)
        ensures
            r@ == with_field16(self@, 11, 1, (if value { 1u16 } else { 0u16 })),
            (r@ >> 11u16) & 1u16 == (if value { 1u16 } else { 0u16 }),
    {
        let mut this = self.this;
        this.set_include_active_in_l_flag(value);
        proof {
            lemma_masks();
            lemma_field16(self@, 11, 1, (if value { 1u16 } else { 0u16 }), 11, 1);
        }
        Self { this }
    }

    /// Sets the field: appends the AVDD alarm high flag.
    pub fn with_include_active_vdd_h_flag(self, value: bool) -> (r: Self)
        ensures
            r@ == with_field16(self@, 12, 1, (if value { 1u16 } else { 0u16 })),
            (r@ >> 12u16) & 1u16 == (if value { 1u16 } else { 0u16 }),
    {
        let mut this = self.this;
        this.set_include_active_vdd_h_flag(value);
        proof {
            lemma_masks();
            lemma_field16(self@, 12, 1, (if value { 1u16 } else { 0u16 }), 12, 1);
        }
        Self { this }
    }

    /// Sets the field: appends the AVDD alarm low flag.
    pub fn with_include_active_vdd_l_flag(self, value: bool) -> (r: Self)
        ensures
            r@ == with_field16(self@, 13, 1, (if value { 1u16 } else { 0u16 })),
            (r@ >> 13u16) & 1u16 == (if value { 1u16 } else { 0u16 }),
    {
        let mut this = self.this;
        this.set_include_active_vdd_l_flag(value);
        proof {
            lemma_masks();
            lemma_field16(self@, 13, 1, (if value { 1u16 } else { 0u16 }), 13, 1);
        }
        Self { this }
    }

    /// Sets the field: appends the four-bit device address.
    pub fn with_include_device_addr_value(self, value: bool) -> (r: Self)
        ensures
            r@ == with_field16(self@, 14, 1, (if value { 1u16 } else { 0u16 })),
            (r@ >> 14u16) & 1u16 == (if value { 1u16 } else { 0u16 }),
    {
        let mut this = self.this;
        this.set_include_device_addr_value(value);
        proof {
            lemma_masks();
            lemma_field16(self@, 14, 1, (if value { 1u16 } else { 0u16 }), 14, 1);
        }
        Self { this }
    }

    /// The value built.
    pub fn build(self) -> (r: DataOutCtl)
        ensures
            r@ == self@,
    {
        self.this
    }
}

/// The range selection register: the ADC input range and the use of the
/// internal reference.
#[derive(Debug, Clone, Copy, PartialEq, Eq, Structural)]
pub struct RangeSel {
    bits: u8,
}

impl View for RangeSel {
    type V = u8;

    /// The raw register bits.
    closed spec fn view(&self) -> u8 {
        self.bits
    }
}

impl RangeSel {
    /// The range_sel field holds the code of one of its values.
    #[verifier::type_invariant]
    pub open spec fn wf(self) -> bool {
        AdcInputRanges::is_valid_bits(field8(self@, 0, 4))
    }

    /// The register value with the given raw bits.
    pub closed spec fn with_bits(bits: u8) -> Self {
        RangeSel { bits }
    }

    /// The register value with the given raw bits has those bits.
    pub proof fn lemma_with_bits(bits: u8)
        ensures
            Self::with_bits(bits)@ == bits,
    {
    }

    /// The bits of the value that raw bits decode to: the bits themselves.
    pub open spec fn canonical_bits(bits: u8) -> u8 {
        bits
    }

    /// The `range_sel` field (the ADC input range. Refer to the datasheet for values), bits 0..4.
    pub open spec fn spec_range_sel(self) -> AdcInputRanges {
        AdcInputRanges::spec_from_bits(field8(self@, 0, 4))
    }

    /// The `disable_internal_adc_reference` field (disables the internal reference), bits 6..7.
    pub open spec fn spec_disable_internal_adc_reference(self) -> bool {
        flag8(self@, 6)
    }

    /// Where each field sits in the register bits, least significant bit 0:
    /// `range_sel` bits 0..4; `disable_internal_adc_reference` bit 6.
    pub proof fn lemma_layout(v: Self)
        ensures
            v.spec_range_sel() == AdcInputRanges::spec_from_bits((v@ >> 0u8) & 15u8),
            v.spec_disable_internal_adc_reference() == ((v@ >> 6u8) & 1u8 != 0),
    {
        lemma_masks();
    }

    /// A register value with every bit cleared.
    pub fn new() -> (r: Self)
        ensures
            r@ == 0,
    {
        proof {
            lemma_masks();
            lemma_field8(0, 0, 4, 0, 0, 4);
        }
        Self { bits: 0 }
    }

    /// The register value with the given raw bits.
    /// The input range code must be one of the listed ranges.
    pub fn from_bits(bits: u8) -> (r: Self)
        requires
            AdcInputRanges::is_valid_bits(field8(bits, 0, 4)),
        ensures
            r@ == bits,
            r@ == Self::canonical_bits(bits),
    {
        Self { bits }
    }

    /// The raw register bits.
    pub fn into_bits(self) -> (r: u8)
        ensures
            r == self@,
    {
        self.bits
    }

    /// Reads the field: the ADC input range. Refer to the datasheet for values.
    pub fn range_sel(&self) -> (r: AdcInputRanges)
        ensures
            r == self.spec_range_sel(),
    {
        proof {
            use_type_invariant(self);
        }
        AdcInputRanges::from_bits(get_field8(self.bits, 0, 4))
    }

    /// Reads the field: disables the internal reference.
    pub fn disable_internal_adc_reference(&self) -> (r: bool)
        ensures
            r == self.spec_disable_internal_adc_reference(),
    {
        get_field8(self.bits, 6, 1) != 0
    }

    /// Sets the field: the ADC input range. Refer to the datasheet for values. Every other bit is kept.
    pub fn set_range_sel(&mut self, value: AdcInputRanges)
        ensures
            final(self)@ == with_field8(old(self)@, 0, 4, value.spec_into_bits()),
            final(self).spec_range_sel() == value,
            final(self).spec_disable_internal_adc_reference() == old(self).spec_disable_internal_adc_reference(),
    {
        proof {
            use_type_invariant(&*self);
        }
        let enc = value.into_bits();
        let nb = put_field8(self.bits, 0, 4, enc);
        proof {
            lemma_masks();
            lemma_field8(self.bits, 0, 4, enc, 0, 4);
            lemma_field8(self.bits, 0, 4, enc, 6, 1);
        }
        self.bits = nb;
    }

    /// Sets the field: disables the internal reference. Every other bit is kept.
    pub fn set_disable_internal_adc_reference(&mut self, value: bool)
        ensures
            final(self)@ == with_field8(old(self)@, 6, 1, (if value { 1u8 } else { 0u8 })),
            final(self).spec_disable_internal_adc_reference() == value,
            final(self).spec_range_sel() == old(self).spec_range_sel(),
    {
        proof {
            use_type_invariant(&*self);
        }
        let enc: u8 = if value { 1 } else { 0 };
        let nb = put_field8(self.bits, 6, 1, enc);
        proof {
            lemma_masks();
            lemma_field8(self.bits, 6, 1, enc, 6, 1);
            lemma_field8(self.bits, 6, 1, enc, 0, 4);
        }
        self.bits = nb;
    }

}

/// A builder for [`RangeSel`] values: starts from the cleared register and
/// sets one field per call.
pub struct RangeSelBuilder {
    this: RangeSel,
}

impl View for RangeSelBuilder {
    type V = u8;

    /// The raw bits of the value under construction.
    closed spec fn view(&self) -> u8 {
        self.this@
    }
}

impl RangeSelBuilder {
    /// A builder for the cleared register value.
    pub fn new() -> (r: Self)
        ensures
            r@ == 0,
    {
        Self { this: RangeSel::new() }
    }

    /// Sets the field: the ADC input range. Refer to the datasheet for values.
    pub fn with_range_sel(self, value: AdcInputRanges) -> (r: Self)
        ensures
            r@ == with_field8(self@, 0, 4, value.spec_into_bits()),
            (r@ >> 0u8) & 15u8 == value.spec_into_bits(),
    {
        let mut this = self.this;
        this.set_range_sel(value);
        proof {
            lemma_masks();
            lemma_field8(self@, 0, 4, value.spec_into_bits(), 0, 4);
        }
        Self { this }
    }

    /// Sets the field: disables the internal reference.
    pub fn with_disable_internal_adc_reference(self, value: bool) -> (r: Self)
        ensures
            r@ == with_field8(self@, 6, 1, (if value { 1u8 } else { 0u8 })),
            (r@ >> 6u8) & 1u8 == (if value { 1u8 } else { 0u8 }),
    {
        let mut this = self.this;
        this.set_disable_internal_adc_reference(value);
        proof {
            lemma_masks();
            lemma_field8(self@, 6, 1, (if value { 1u8 } else { 0u8 }), 6, 1);
        }
        Self { this }
    }

    /// The value built.
    pub fn build(self) -> (r: RangeSel)
        ensures
            r@ == self@,
    {
        self.this
    }
}

/// The alarm register: the output-word alarm and the tripped and active
/// input and AVDD alarm flags.
#[derive(Debug, Clone, Copy, PartialEq, Eq, Structural)]
pub struct Alarm {
    bits: u16,
}

impl View for Alarm {
    type V = u16;

    /// The raw register bits.
    closed spec fn view(&self) -> u16 {
        self.bits
    }
}

impl Alarm {
    /// The register value with the given raw bits.
    pub closed spec fn with_bits(bits: u16) -> Self {
        Alarm { bits }
    }

    /// The register value with the given raw bits has those bits.
    pub proof fn lemma_with_bits(bits: u16)
        ensures
            Self::with_bits(bits)@ == bits,
    {
    }

    /// The bits of the value that raw bits decode to: the bits themselves.
    pub open spec fn canonical_bits(bits: u16) -> u16 {
        bits
    }

    /// The `ovw_alarm` field (output word alarm: any tripped alarm), bits 0..1.
    pub open spec fn spec_ovw_alarm(self) -> bool {
        flag16(self@, 0)
    }

    /// The `trip_high_input_voltage` field (the input high alarm has tripped), bits 4..5.
    pub open spec fn spec_trip_high_input_voltage(self) -> bool {
        flag16(self@, 4)
    }

    /// The `trip_low_input_voltage` field (the input low alarm has tripped), bits 5..6.
    pub open spec fn spec_trip_low_input_voltage(self) -> bool {
        flag16(self@, 5)
    }

    /// The `trip_high_avdd` field (the AVDD high alarm has tripped), bits 6..7.
    pub open spec fn spec_trip_high_avdd(self) -> bool {
        flag16(self@, 6)
    }

    /// The `trip_low_avdd` field (the AVDD low alarm has tripped), bits 7..8.
    pub open spec fn spec_trip_low_avdd(self) -> bool {
        flag16(self@, 7)
    }

    /// The `high_input_voltage` field (the input high alarm is active), bits 10..11.
    pub open spec fn spec_high_input_voltage(self) -> bool {
        flag16(self@, 10)
    }

    /// The `low_input_voltage` field (the input low alarm is active), bits 11..12.
    pub open spec fn spec_low_input_voltage(self) -> bool {
        flag16(self@, 11)
    }

    /// The `high_avdd_voltage` field (the AVDD high alarm is active), bits 14..15.
    pub open spec fn spec_high_avdd_voltage(self) -> bool {
        flag16(self@, 14)
    }

    /// The `low_avdd_voltage` field (the AVDD low alarm is active), bits 15..16.
    pub open spec fn spec_low_avdd_voltage(self) -> bool {
        flag16(self@, 15)
    }

    /// Where each field sits in the register bits, least significant bit 0:
    /// `ovw_alarm` bit 0; `trip_high_input_voltage` bit 4; `trip_low_input_voltage` bit 5; `trip_high_avdd` bit 6; `trip_low_avdd` bit 7; `high_input_voltage` bit 10; `low_input_voltage` bit 11; `high_avdd_voltage` bit 14; `low_avdd_voltage` bit 15.
    pub proof fn lemma_layout(v: Self)
        ensures
            v.spec_ovw_alarm() == ((v@ >> 0u16) & 1u16 != 0),
            v.spec_trip_high_input_voltage() == ((v@ >> 4u16) & 1u16 != 0),
            v.spec_trip_low_input_voltage() == ((v@ >> 5u16) & 1u16 != 0),
            v.spec_trip_high_avdd() == ((v@ >> 6u16) & 1u16 != 0),
            v.spec_trip_low_avdd() == ((v@ >> 7u16) & 1u16 != 0),
            v.spec_high_input_voltage() == ((v@ >> 10u16) & 1u16 != 0),
            v.spec_low_input_voltage() == ((v@ >> 11u16) & 1u16 != 0),
            v.spec_high_avdd_voltage() == ((v@ >> 14u16) & 1u16 != 0),
            v.spec_low_avdd_voltage() == ((v@ >> 15u16) & 1u16 != 0),
    {
        lemma_masks();
    }

    /// A register value with every bit cleared.
    pub fn new() -> (r: Self)
        ensures
            r@ == 0,
    {
        Self { bits: 0 }
    }

    /// The register value with the given raw bits.
    pub fn from_bits(bits: u16) -> (r: Self)
        ensures
            r@ == bits,
            r@ == Self::canonical_bits(bits),
    {
        Self { bits }
    }

    /// The raw register bits.
    pub fn into_bits(self) -> (r: u16)
        ensures
            r == self@,
    {
        self.bits
    }

    /// Reads the field: output word alarm: any tripped alarm.
    pub fn ovw_alarm(&self) -> (r: bool)
        ensures
            r == self.spec_ovw_alarm(),
    {
        get_field16(self.bits, 0, 1) != 0
    }

    /// Reads the field: the input high alarm has tripped.
    pub fn trip_high_input_voltage(&self) -> (r: bool)
        ensures
            r == self.spec_trip_high_input_voltage(),
    {
        get_field16(self.bits, 4, 1) != 0
    }

    /// Reads the field: the input low alarm has tripped.
    pub fn trip_low_input_voltage(&self) -> (r: bool)
        ensures
            r == self.spec_trip_low_input_voltage(),
    {
        get_field16(self.bits, 5, 1) != 0
    }

    /// Reads the field: the AVDD high alarm has tripped.
    pub fn trip_high_avdd(&self) -> (r: bool)
        ensures
            r == self.spec_trip_high_avdd(),
    {
        get_field16(self.bits, 6, 1) != 0
    }

    /// Reads the field: the AVDD low alarm has tripped.
    pub fn trip_low_avdd(&self) -> (r: bool)
        ensures
            r == self.spec_trip_low_avdd(),
    {
        get_field16(self.bits, 7, 1) != 0
    }

    /// Reads the field: the input high alarm is active.
    pub fn high_input_voltage(&self) -> (r: bool)
        ensures
            r == self.spec_high_input_voltage(),
    {
        get_field16(self.bits, 10, 1) != 0
    }

    /// Reads the field: the input low alarm is active.
    pub fn low_input_voltage(&self) -> (r: bool)
        ensures
            r == self.spec_low_input_voltage(),
    {
        get_field16(self.bits, 11, 1) != 0
    }

    /// Reads the field: the AVDD high alarm is active.
    pub fn high_avdd_voltage(&self) -> (r: bool)
        ensures
            r == self.spec_high_avdd_voltage(),
    {
        get_field16(self.bits, 14, 1) != 0
    }

    /// Reads the field: the AVDD low alarm is active.
    pub fn low_avdd_voltage(&self) -> (r: bool)
        ensures
            r == self.spec_low_avdd_voltage(),
    {
        get_field16(self.bits, 15, 1) != 0
    }

    /// Sets the field: output word alarm: any tripped alarm. Every other bit is kept.
    pub fn set_ovw_alarm(&mut self, value: bool)
        ensures
            final(self)@ == with_field16(old(self)@, 0, 1, (if value { 1u16 } else { 0u16 })),
            final(self).spec_ovw_alarm() == value,
            final(self).spec_trip_high_input_voltage() == old(self).spec_trip_high_input_voltage(),
            final(self).spec_trip_low_input_voltage() == old(self).spec_trip_low_input_voltage(),
            final(self).spec_trip_high_avdd() == old(self).spec_trip_high_avdd(),
            final(self).spec_trip_low_avdd() == old(self).spec_trip_low_avdd(),
            final(self).spec_high_input_voltage() == old(self).spec_high_input_voltage(),
            final(self).spec_low_input_voltage() == old(self).spec_low_input_voltage(),
            final(self).spec_high_avdd_voltage() == old(self).spec_high_avdd_voltage(),
            final(self).spec_low_avdd_voltage() == old(self).spec_low_avdd_voltage(),
    {
        let enc: u16 = if value { 1 } else { 0 };
        let nb = put_field16(self.bits, 0, 1, enc);
        proof {
            lemma_masks();
            lemma_field16(self.bits, 0, 1, enc, 0, 1);
            lemma_field16(self.bits, 0, 1, enc, 4, 1);
            lemma_field16(self.bits, 0, 1, enc, 5, 1);
            lemma_field16(self.bits, 0, 1, enc, 6, 1);
            lemma_field16(self.bits, 0, 1, enc, 7, 1);
            lemma_field16(self.bits, 0, 1, enc, 10, 1);
            lemma_field16(self.bits, 0, 1, enc, 11, 1);
            lemma_field16(self.bits, 0, 1, enc, 14, 1);
            lemma_field16(self.bits, 0, 1, enc, 15, 1);
        }
        self.bits = nb;
    }

    /// Sets the field: the input high alarm has tripped. Every other bit is kept.
    pub fn set_trip_high_input_voltage(&mut self, value: bool)
        ensures
            final(self)@ == with_field16(old(self)@, 4, 1, (if value { 1u16 } else { 0u16 })),
            final(self).spec_trip_high_input_voltage() == value,
            final(self).spec_ovw_alarm() == old(self).spec_ovw_alarm(),
            final(self).spec_trip_low_input_voltage() == old(self).spec_trip_low_input_voltage(),
            final(self).spec_trip_high_avdd() == old(self).spec_trip_high_avdd(),
            final(self).spec_trip_low_avdd() == old(self).spec_trip_low_avdd(),
            final(self).spec_high_input_voltage() == old(self).spec_high_input_voltage(),
            final(self).spec_low_input_voltage() == old(self).spec_low_input_voltage(),
            final(self).spec_high_avdd_voltage() == old(self).spec_high_avdd_voltage(),
            final(self).spec_low_avdd_voltage() == old(self).spec_low_avdd_voltage(),
    {
        let enc: u16 = if value { 1 } else { 0 };
        let nb = put_field16(self.bits, 4, 1, enc);
        proof {
            lemma_masks();
            lemma_field16(self.bits, 4, 1, enc, 4, 1);
            lemma_field16(self.bits, 4, 1, enc, 0, 1);
            lemma_field16(self.bits, 4, 1, enc, 5, 1);
            lemma_field16(self.bits, 4, 1, enc, 6, 1);
            lemma_field16(self.bits, 4, 1, enc, 7, 1);
            lemma_field16(self.bits, 4, 1, enc, 10, 1);
            lemma_field16(self.bits, 4, 1, enc, 11, 1);
            lemma_field16(self.bits, 4, 1, enc, 14, 1);
            lemma_field16(self.bits, 4, 1, enc, 15, 1);
        }
        self.bits = nb;
    }

    /// Sets the field: the input low alarm has tripped. Every other bit is kept.
    pub fn set_trip_low_input_voltage(&mut self, value: bool)
        ensures
            final(self)@ == with_field16(old(self)@, 5, 1, (if value { 1u16 } else { 0u16 })),
            final(self).spec_trip_low_input_voltage() == value,
            final(self).spec_ovw_alarm() == old(self).spec_ovw_alarm(),
            final(self).spec_trip_high_input_voltage() == old(self).spec_trip_high_input_voltage(),
            final(self).spec_trip_high_avdd() == old(self).spec_trip_high_avdd(),
            final(self).spec_trip_low_avdd() == old(self).spec_trip_low_avdd(),
            final(self).spec_high_input_voltage() == old(self).spec_high_input_voltage(),
            final(self).spec_low_input_voltage() == old(self).spec_low_input_voltage(),
            final(self).spec_high_avdd_voltage() == old(self).spec_high_avdd_voltage(),
            final(self).spec_low_avdd_voltage() == old(self).spec_low_avdd_voltage(),
    {
        let enc: u16 = if value { 1 } else { 0 };
        let nb = put_field16(self.bits, 5, 1, enc);
        proof {
            lemma_masks();
            lemma_field16(self.bits, 5, 1, enc, 5, 1);
            lemma_field16(self.bits, 5, 1, enc, 0, 1);
            lemma_field16(self.bits, 5, 1, enc, 4, 1);
            lemma_field16(self.bits, 5, 1, enc, 6, 1);
            lemma_field16(self.bits, 5, 1, enc, 7, 1);
            lemma_field16(self.bits, 5, 1, enc, 10, 1);
            lemma_field16(self.bits, 5, 1, enc, 11, 1);
            lemma_field16(self.bits, 5, 1, enc, 14, 1);
            lemma_field16(self.bits, 5, 1, enc, 15, 1);
        }
        self.bits = nb;
    }

    /// Sets the field: the AVDD high alarm has tripped. Every other bit is kept.
    pub fn set_trip_high_avdd(&mut self, value: bool)
        ensures
            final(self)@ == with_field16(old(self)@, 6, 1, (if value { 1u16 } else { 0u16 })),
            final(self).spec_trip_high_avdd() == value,
            final(self).spec_ovw_alarm() == old(self).spec_ovw_alarm(),
            final(self).spec_trip_high_input_voltage() == old(self).spec_trip_high_input_voltage(),
            final(self).spec_trip_low_input_voltage() == old(self).spec_trip_low_input_voltage(),
            final(self).spec_trip_low_avdd() == old(self).spec_trip_low_avdd(),
            final(self).spec_high_input_voltage() == old(self).spec_high_input_voltage(),
            final(self).spec_low_input_voltage() == old(self).spec_low_input_voltage(),
            final(self).spec_high_avdd_voltage() == old(self).spec_high_avdd_voltage(),
            final(self).spec_low_avdd_voltage() == old(self).spec_low_avdd_voltage(),
    {
        let enc: u16 = if value { 1 } else { 0 };
        let nb = put_field16(self.bits, 6, 1, enc);
        proof {
            lemma_masks();
            lemma_field16(self.bits, 6, 1, enc, 6, 1);
            lemma_field16(self.bits, 6, 1, enc, 0, 1);
            lemma_field16(self.bits, 6, 1, enc, 4, 1);
            lemma_field16(self.bits, 6, 1, enc, 5, 1);
            lemma_field16(self.bits, 6, 1, enc, 7, 1);
            lemma_field16(self.bits, 6, 1, enc, 10, 1);
            lemma_field16(self.bits, 6, 1, enc, 11, 1);
            lemma_field16(self.bits, 6, 1, enc, 14, 1);
            lemma_field16(self.bits, 6, 1, enc, 15, 1);
        }
        self.bits = nb;
    }

    /// Sets the field: the AVDD low alarm has tripped. Every other bit is kept.
    pub fn set_trip_low_avdd(&mut self, value: bool)
        ensures
            final(self)@ == with_field16(old(self)@, 7, 1, (if value { 1u16 } else { 0u16 })),
            final(self).spec_trip_low_avdd() == value,
            final(self).spec_ovw_alarm() == old(self).spec_ovw_alarm(),
            final(self).spec_trip_high_input_voltage() == old(self).spec_trip_high_input_voltage(),
            final(self).spec_trip_low_input_voltage() == old(self).spec_trip_low_input_voltage(),
            final(self).spec_trip_high_avdd() == old(self).spec_trip_high_avdd(),
            final(self).spec_high_input_voltage() == old(self).spec_high_input_voltage(),
            final(self).spec_low_input_voltage() == old(self).spec_low_input_voltage(),
            final(self).spec_high_avdd_voltage() == old(self).spec_high_avdd_voltage(),
            final(self).spec_low_avdd_voltage() == old(self).spec_low_avdd_voltage(),
    {
        let enc: u16 = if value { 1 } else { 0 };
        let nb = put_field16(self.bits, 7, 1, enc);
        proof {
            lemma_masks();
            lemma_field16(self.bits, 7, 1, enc, 7, 1);
            lemma_field16(self.bits, 7, 1, enc, 0, 1);
            lemma_field16(self.bits, 7, 1, enc, 4, 1);
            lemma_field16(self.bits, 7, 1, enc, 5, 1);
            lemma_field16(self.bits, 7, 1, enc, 6, 1);
            lemma_field16(self.bits, 7, 1, enc, 10, 1);
            lemma_field16(self.bits, 7, 1, enc, 11, 1);
            lemma_field16(self.bits, 7, 1, enc, 14, 1);
            lemma_field16(self.bits, 7, 1, enc, 15, 1);
        }
        self.bits = nb;
    }

    /// Sets the field: the input high alarm is active. Every other bit is kept.
    pub fn set_high_input_voltage(&mut self, value: bool)
        ensures
            final(self)@ == with_field16(old(self)@, 10, 1, (if value { 1u16 } else { 0u16 })),
            final(self).spec_high_input_voltage() == value,
            final(self).spec_ovw_alarm() == old(self).spec_ovw_alarm(),
            final(self).spec_trip_high_input_voltage() == old(self).spec_trip_high_input_voltage(),
            final(self).spec_trip_low_input_voltage() == old(self).spec_trip_low_input_voltage(),
            final(self).spec_trip_high_avdd() == old(self).spec_trip_high_avdd(),
            final(self).spec_trip_low_avdd() == old(self).spec_trip_low_avdd(),
            final(self).spec_low_input_voltage() == old(self).spec_low_input_voltage(),
            final(self).spec_high_avdd_voltage() == old(self).spec_high_avdd_voltage(),
            final(self).spec_low_avdd_voltage() == old(self).spec_low_avdd_voltage(),
    {
        let enc: u16 = if value { 1 } else { 0 };
        let nb = put_field16(self.bits, 10, 1, enc);
        proof {
            lemma_masks();
            lemma_field16(self.bits, 10, 1, enc, 10, 1);
            lemma_field16(self.bits, 10, 1, enc, 0, 1);
            lemma_field16(self.bits, 10, 1, enc, 4, 1);
            lemma_field16(self.bits, 10, 1, enc, 5, 1);
            lemma_field16(self.bits, 10, 1, enc, 6, 1);
            lemma_field16(self.bits, 10, 1, enc, 7, 1);
            lemma_field16(self.bits, 10, 1, enc, 11, 1);
            lemma_field16(self.bits, 10, 1, enc, 14, 1);
            lemma_field16(self.bits, 10, 1, enc, 15, 1);
        }
        self.bits = nb;
    }

    /// Sets the field: the input low alarm is active. Every other bit is kept.
    pub fn set_low_input_voltage(&mut self, value: bool)
        ensures
            final(self)@ == with_field16(old(self)@, 11, 1, (if value { 1u16 } else { 0u16 })),
            final(self).spec_low_input_voltage() == value,
            final(self).spec_ovw_alarm() == old(self).spec_ovw_alarm(),
            final(self).spec_trip_high_input_voltage() == old(self).spec_trip_high_input_voltage(),
            final(self).spec_trip_low_input_voltage() == old(self).spec_trip_low_input_voltage(),
            final(self).spec_trip_high_avdd() == old(self).spec_trip_high_avdd(),
            final(self).spec_trip_low_avdd() == old(self).spec_trip_low_avdd(),
            final(self).spec_high_input_voltage() == old(self).spec_high_input_voltage(),
            final(self).spec_high_avdd_voltage() == old(self).spec_high_avdd_voltage(),
            final(self).spec_low_avdd_voltage() == old(self).spec_low_avdd_voltage(),
    {
        let enc: u16 = if value { 1 } else { 0 };
        let nb = put_field16(self.bits, 11, 1, enc);
        proof {
            lemma_masks();
            lemma_field16(self.bits, 11, 1, enc, 11, 1);
            lemma_field16(self.bits, 11, 1, enc, 0, 1);
            lemma_field16(self.bits, 11, 1, enc, 4, 1);
            lemma_field16(self.bits, 11, 1, enc, 5, 1);
            lemma_field16(self.bits, 11, 1, enc, 6, 1);
            lemma_field16(self.bits, 11, 1, enc, 7, 1);
            lemma_field16(self.bits, 11, 1, enc, 10, 1);
            lemma_field16(self.bits, 11, 1, enc, 14, 1);
            lemma_field16(self.bits, 11, 1, enc, 15, 1);
        }
        self.bits = nb;
    }

    /// Sets the field: the AVDD high alarm is active. Every other bit is kept.
    pub fn set_high_avdd_voltage(&mut self, value: bool)
        ensures
            final(self)@ == with_field16(old(self)@, 14, 1, (if value { 1u16 } else { 0u16 })),
            final(self).spec_high_avdd_voltage() == value,
            final(self).spec_ovw_alarm() == old(self).spec_ovw_alarm(),
            final(self).spec_trip_high_input_voltage() == old(self).spec_trip_high_input_voltage(),
            final(self).spec_trip_low_input_voltage() == old(self).spec_trip_low_input_voltage(),
            final(self).spec_trip_high_avdd() == old(self).spec_trip_high_avdd(),
            final(self).spec_trip_low_avdd() == old(self).spec_trip_low_avdd(),
            final(self).spec_high_input_voltage() == old(self).spec_high_input_voltage(),
            final(self).spec_low_input_voltage() == old(self).spec_low_input_voltage(),
            final(self).spec_low_avdd_voltage() == old(self).spec_low_avdd_voltage(),
    {
        let enc: u16 = if value { 1 } else { 0 };
        let nb = put_field16(self.bits, 14, 1, enc);
        proof {
            lemma_masks();
            lemma_field16(self.bits, 14, 1, enc, 14, 1);
            lemma_field16(self.bits, 14, 1, enc, 0, 1);
            lemma_field16(self.bits, 14, 1, enc, 4, 1);
            lemma_field16(self.bits, 14, 1, enc, 5, 1);
            lemma_field16(self.bits, 14, 1, enc, 6, 1);
            lemma_field16(self.bits, 14, 1, enc, 7, 1);
            lemma_field16(self.bits, 14, 1, enc, 10, 1);
            lemma_field16(self.bits, 14, 1, enc, 11, 1);
            lemma_field16(self.bits, 14, 1, enc, 15, 1);
        }
        self.bits = nb;
    }

    /// Sets the field: the AVDD low alarm is active. Every other bit is kept.
    pub fn set_low_avdd_voltage(&mut self, value: bool)
        ensures
            final(self)@ == with_field16(old(self)@, 15, 1, (if value { 1u16 } else { 0u16 })),
            final(self).spec_low_avdd_voltage() == value,
            final(self).spec_ovw_alarm() == old(self).spec_ovw_alarm(),
            final(self).spec_trip_high_input_voltage() == old(self).spec_trip_high_input_voltage(),
            final(self).spec_trip_low_input_voltage() == old(self).spec_trip_low_input_voltage(),
            final(self).spec_trip_high_avdd() == old(self).spec_trip_high_avdd(),
            final(self).spec_trip_low_avdd() == old(self).spec_trip_low_avdd(),
            final(self).spec_high_input_voltage() == old(self).spec_high_input_voltage(),
            final(self).spec_low_input_voltage() == old(self).spec_low_input_voltage(),
            final(self).spec_high_avdd_voltage() == old(self).spec_high_avdd_voltage(),
    {
        let enc: u16 = if value { 1 } else { 0 };
        let nb = put_field16(self.bits, 15, 1, enc);
        proof {
            lemma_masks();
            lemma_field16(self.bits, 15, 1, enc, 15, 1);
            lemma_field16(self.bits, 15, 1, enc, 0, 1);
            lemma_field16(self.bits, 15, 1, enc, 4, 1);
            lemma_field16(self.bits, 15, 1, enc, 5, 1);
            lemma_field16(self.bits, 15, 1, enc, 6, 1);
            lemma_field16(self.bits, 15, 1, enc, 7, 1);
            lemma_field16(self.bits, 15, 1, enc, 10, 1);
            lemma_field16(self.bits, 15, 1, enc, 11, 1);
            lemma_field16(self.bits, 15, 1, enc, 14, 1);
        }
        self.bits = nb;
    }

}

/// A builder for [`Alarm`] values: starts from the cleared register and
/// sets one field per call.
pub struct AlarmBuilder {
    this: Alarm,
}

impl View for AlarmBuilder {
    type V = u16;

    /// The raw bits of the value under construction.
    closed spec fn view(&self) -> u16 {
        self.this@
    }
}

impl AlarmBuilder {
    /// A builder for the cleared register value.
    pub fn new() -> (r: Self)
        ensures
            r@ == 0,
    {
        Self { this: Alarm::new() }
    }

    /// Sets the field: output word alarm: any tripped alarm.
    pub fn with_ovw_alarm(self, value: bool) -> (r: Self)
        ensures
            r@ == with_field16(self@, 0, 1, (if value { 1u16 } else { 0u16 })),
            (r@ >> 0u16) & 1u16 == (if value { 1u16 } else { 0u16 }),
    {
        let mut this = self.this;
        this.set_ovw_alarm(value);
        proof {
            lemma_masks();
            lemma_field16(self@, 0, 1, (if value { 1u16 } else { 0u16 }), 0, 1);
        }
        Self { this }
    }

    /// Sets the field: the input high alarm has tripped.
    pub fn with_trip_high_input_voltage(self, value: bool) -> (r: Self)
        ensures
            r@ == with_field16(self@, 4, 1, (if value { 1u16 } else { 0u16 })),
            (r@ >> 4u16) & 1u16 == (if value { 1u16 } else { 0u16 }),
    {
        let mut this = self.this;
        this.set_trip_high_input_voltage(value);
        proof {
            lemma_masks();
            lemma_field16(self@, 4, 1, (if value { 1u16 } else { 0u16 }), 4, 1);
        }
        Self { this }
    }

    /// Sets the field: the input low alarm has tripped.
    pub fn with_trip_low_input_voltage(self, value: bool) -> (r: Self)
        ensures
            r@ == with_field16(self@, 5, 1, (if value { 1u16 } else { 0u16 })),
            (r@ >> 5u16) & 1u16 == (if value { 1u16 } else { 0u16 }),
    {
        let mut this = self.this;
        this.set_trip_low_input_voltage(value);
        proof {
            lemma_masks();
            lemma_field16(self@, 5, 1, (if value { 1u16 } else { 0u16 }), 5, 1);
        }
        Self { this }
    }

    /// Sets the field: the AVDD high alarm has tripped.
    pub fn with_trip_high_avdd(self, value: bool) -> (r: Self)
        ensures
            r@ == with_field16(self@, 6, 1, (if value { 1u16 } else { 0u16 })),
            (r@ >> 6u16) & 1u16 == (if value { 1u16 } else { 0u16 }),
    {
        let mut this = self.this;
        this.set_trip_high_avdd(value);
        proof {
            lemma_masks();
            lemma_field16(self@, 6, 1, (if value { 1u16 } else { 0u16 }), 6, 1);
        }
        Self { this }
    }

    /// Sets the field: the AVDD low alarm has tripped.
    pub fn with_trip_low_avdd(self, value: bool) -> (r: Self)
        ensures
            r@ == with_field16(self@, 7, 1, (if value { 1u16 } else { 0u16 })),
            (r@ >> 7u16) & 1u16 == (if value { 1u16 } else { 0u16 }),
    {
        let mut this = self.this;
        this.set_trip_low_avdd(value);
        proof {
            lemma_masks();
            lemma_field16(self@, 7, 1, (if value { 1u16 } else { 0u16 }), 7, 1);
        }
        Self { this }
    }

    /// Sets the field: the input high alarm is active.
    pub fn with_high_input_voltage(self, value: bool) -> (r: Self)
        ensures
            r@ == with_field16(self@, 10, 1, (if value { 1u16 } else { 0u16 })),
            (r@ >> 10u16) & 1u16 == (if value { 1u16 } else { 0u16 }),
    {
        let mut this = self.this;
        this.set_high_input_voltage(value);
        proof {
            lemma_masks();
            lemma_field16(self@, 10, 1, (if value { 1u16 } else { 0u16 }), 10, 1);
        }
        Self { this }
    }

    /// Sets the field: the input low alarm is active.
    pub fn with_low_input_voltage(self, value: bool) -> (r: Self)
        ensures
            r@ == with_field16(self@, 11, 1, (if value { 1u16 } else { 0u16 })),
            (r@ >> 11u16) & 1u16 == (if value { 1u16 } else { 0u16 }),
    {
        let mut this = self.this;
        this.set_low_input_voltage(value);
        proof {
            lemma_masks();
            lemma_field16(self@, 11, 1, (if value { 1u16 } else { 0u16 }), 11, 1);
        }
        Self { this }
    }

    /// Sets the field: the AVDD high alarm is active.
    pub fn with_high_avdd_voltage(self, value: bool) -> (r: Self)
        ensures
            r@ == with_field16(self@, 14, 1, (if value { 1u16 } else { 0u16 })),
            (r@ >> 14u16) & 1u16 == (if value { 1u16 } else { 0u16 }),
    {
        let mut this = self.this;
        this.set_high_avdd_voltage(value);
        proof {
            lemma_masks();
            lemma_field16(self@, 14, 1, (if value { 1u16 } else { 0u16 }), 14, 1);
        }
        Self { this }
    }

    /// Sets the field: the AVDD low alarm is active.
    pub fn with_low_avdd_voltage(self, value: bool) -> (r: Self)
        ensures
            r@ == with_field16(self@, 15, 1, (if value { 1u16 } else { 0u16 })),
            (r@ >> 15u16) & 1u16 == (if value { 1u16 } else { 0u16 }),
    {
        let mut this = self.this;
        this.set_low_avdd_voltage(value);
        proof {
            lemma_masks();
            lemma_field16(self@, 15, 1, (if value { 1u16 } else { 0u16 }), 15, 1);
        }
        Self { this }
    }

    /// The value built.
    pub fn build(self) -> (r: Alarm)
        ensures
            r@ == self@,
    {
        self.this
    }
}

impl From<u8> for RstPwrCtrl {
    /// The register value that the raw bits decode to, as [`RstPwrCtrl::from_bits`].
    fn from(bits: u8) -> (r: Self)
        ensures
            r@ == Self::canonical_bits(bits),
    {
        Self::from_bits(bits)
    }
}

impl vstd::std_specs::convert::FromSpecImpl<u8> for RstPwrCtrl {
    open spec fn obeys_from_spec() -> bool {
        true
    }

    open spec fn from_spec(bits: u8) -> Self {
        Self::with_bits(Self::canonical_bits(bits))
    }
}

impl From<RstPwrCtrl> for u8 {
    /// The raw register bits.
    fn from(value: RstPwrCtrl) -> (r: u8)
        ensures
            r == value@,
    {
        value.into_bits()
    }
}

impl vstd::std_specs::convert::FromSpecImpl<RstPwrCtrl> for u8 {
    open spec fn obeys_from_spec() -> bool {
        true
    }

    open spec fn from_spec(value: RstPwrCtrl) -> u8 {
        value@
    }
}

impl From<u8> for SdiMode {
    /// The register value that the raw bits decode to, as [`SdiMode::from_bits`].
    fn from(bits: u8) -> (r: Self)
        ensures
            r@ == Self::canonical_bits(bits),
    {
        Self::from_bits(bits)
    }
}

impl vstd::std_specs::convert::FromSpecImpl<u8> for SdiMode {
    open spec fn obeys_from_spec() -> bool {
        true
    }

    open spec fn from_spec(bits: u8) -> Self {
        Self::with_bits(Self::canonical_bits(bits))
    }
}

impl From<SdiMode> for u8 {
    /// The raw register bits.
    fn from(value: SdiMode) -> (r: u8)
        ensures
            r == value@,
    {
        value.into_bits()
    }
}

impl vstd::std_specs::convert::FromSpecImpl<SdiMode> for u8 {
    open spec fn obeys_from_spec() -> bool {
        true
    }

    open spec fn from_spec(value: SdiMode) -> u8 {
        value@
    }
}

impl From<u16> for SdoCtl {
    /// The register value that the raw bits decode to, as [`SdoCtl::from_bits`].
    fn from(bits: u16) -> (r: Self)
        ensures
            r@ == Self::canonical_bits(bits),
    {
        Self::from_bits(bits)
    }
}

impl vstd::std_specs::convert::FromSpecImpl<u16> for SdoCtl {
    open spec fn obeys_from_spec() -> bool {
        true
    }

    open spec fn from_spec(bits: u16) -> Self {
        Self::with_bits(Self::canonical_bits(bits))
    }
}

impl From<SdoCtl> for u16 {
    /// The raw register bits.
    fn from(value: SdoCtl) -> (r: u16)
        ensures
            r == value@,
    {
        value.into_bits()
    }
}

impl vstd::std_specs::convert::FromSpecImpl<SdoCtl> for u16 {
    open spec fn obeys_from_spec() -> bool {
        true
    }

    open spec fn from_spec(value: SdoCtl) -> u16 {
        value@
    }
}

impl From<u16> for DataOutCtl {
    /// The register value that the raw bits decode to, as [`DataOutCtl::from_bits`].
    fn from(bits: u16) -> (r: Self)
        ensures
            r@ == Self::canonical_bits(bits),
    {
        Self::from_bits(bits)
    }
}

impl vstd::std_specs::convert::FromSpecImpl<u16> for DataOutCtl {
    open spec fn obeys_from_spec() -> bool {
        true
    }

    open spec fn from_spec(bits: u16) -> Self {
        Self::with_bits(Self::canonical_bits(bits))
    }
}

impl From<DataOutCtl> for u16 {
    /// The raw register bits.
    fn from(value: DataOutCtl) -> (r: u16)
        ensures
            r == value@,
    {
        value.into_bits()
    }
}

impl vstd::std_specs::convert::FromSpecImpl<DataOutCtl> for u16 {
    open spec fn obeys_from_spec() -> bool {
        true
    }

    open spec fn from_spec(value: DataOutCtl) -> u16 {
        value@
    }
}

impl From<RangeSel> for u8 {
    /// The raw register bits.
    fn from(value: RangeSel) -> (r: u8)
        ensures
            r == value@,
    {
        value.into_bits()
    }
}

impl vstd::std_specs::convert::FromSpecImpl<RangeSel> for u8 {
    open spec fn obeys_from_spec() -> bool {
        true
    }

    open spec fn from_spec(value: RangeSel) -> u8 {
        value@
    }
}

impl From<u16> for Alarm {
    /// The register value that the raw bits decode to, as [`Alarm::from_bits`].
    fn from(bits: u16) -> (r: Self)
        ensures
            r@ == Self::canonical_bits(bits),
    {
        Self::from_bits(bits)
    }
}

impl vstd::std_specs::convert::FromSpecImpl<u16> for Alarm {
    open spec fn obeys_from_spec() -> bool {
        true
    }

    open spec fn from_spec(bits: u16) -> Self {
        Self::with_bits(Self::canonical_bits(bits))
    }
}

impl From<Alarm> for u16 {
    /// The raw register bits.
    fn from(value: Alarm) -> (r: u16)
        ensures
            r == value@,
    {
        value.into_bits()
    }
}

impl vstd::std_specs::convert::FromSpecImpl<Alarm> for u16 {
    open spec fn obeys_from_spec() -> bool {
        true
    }

    open spec fn from_spec(value: Alarm) -> u16 {
        value@
    }
}

} // verus!
