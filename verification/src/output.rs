//! Output data words: the 32 bits the device clocks out during every command
//! frame, holding a 16-bit conversion result followed by the flags that the
//! data out control register selects.
use vstd::prelude::*;
use crate::config::DataOutCtl;
use crate::fields::AdcInputRanges;

verus! {

/// A 4 bit device address. Ignore the upper 4 bits in the [`u8`] inside.
#[derive(Debug, Clone, Copy, PartialEq, Eq, Structural)]
pub struct DeviceAddress(pub u8);

/// Produced in every write command and noop command. You can acquire one via
/// `get_data_output`. Contains a conversion result and other appended flags.
#[derive(Debug, Clone, Copy)]
pub struct OutputDataWord(pub [u8; 4]);

/// An [`OutputDataWord`] can be interpreted for its meaning by using a
/// [`DataOutCtl`]. See [`OutputDataWord::interpret`].
#[derive(Debug, Clone, Copy, PartialEq, Eq, Structural)]
pub struct InterpretedOutputDataWord {
    /// A 16 bit conversion result
    pub conversion_result: u16,
    /// Device address used for daisy chaining
    pub device_address: Option<DeviceAddress>,
    /// ADC settings (from range_sel)
    pub adc_input_range: Option<AdcInputRanges>,
    /// AVDD Alarm high voltage
    pub avdd_alarm_high_flag: Option<bool>,
    /// AVDD Alarm low voltage
    pub avdd_alarm_low_flag: Option<bool>,
    /// Input Alarm high voltage
    pub input_alarm_high_flag: Option<bool>,
    /// Input Alarm low voltage
    pub input_alarm_low_flag: Option<bool>,
    /// Parity bits for the whole returned message. This library currently
    /// does not perform any checks using the parity bits.
    pub parity_bits: Option<u8>,
}

/// Width of an appended field when it is included, zero otherwise.
pub open spec fn included_width(included: bool, width: int) -> int {
    if included {
        width
    } else {
        0
    }
}

/// The appended fields lie below the conversion result and above bit 0: the
/// position counting starts at bit 16 and the last field ends at or above bit 2,
/// each included field taking its width.
pub proof fn lemma_appended_fields_in_range(ctl: DataOutCtl)
    ensures
        OutputDataWord::field_position(ctl, 0) == 16,
        OutputDataWord::field_position(ctl, 7) >= 2,
        forall|k: int|
            1 <= k <= 7 ==> #[trigger] OutputDataWord::field_position(ctl, k)
                <= OutputDataWord::field_position(ctl, k - 1),
{
}

/// A field of the low half word of the number: the number's bits at or above
/// bit 16 never reach a field that ends at or below bit 16.
proof fn lemma_low_half_bits(b0: u8, b1: u8, b2: u8, b3: u8, p: u32)
    requires
        p <= 15,
    ensures
        ({
            let n = (b0 as int * 0x1000000 + b1 as int * 0x10000 + b2 as int * 0x100
                + b3 as int) as u32;
            let lo = (b2 as int * 0x100 + b3 as int) as u16;
            &&& ((n >> p) & 1 != 0) == ((lo >> (p as u16)) & 1 != 0)
            &&& p <= 14 ==> ((n >> p) & 0b11) as u8 == ((lo >> (p as u16)) & 0b11) as u8
            &&& p <= 12 ==> ((n >> p) & 0xf) as u8 == ((lo >> (p as u16)) & 0xf) as u8
        }),
{
    assert(((((b0 as int * 0x1000000 + b1 as int * 0x10000 + b2 as int * 0x100 + b3 as int) as u32)
        >> p) & 1 != 0) == ((((b2 as int * 0x100 + b3 as int) as u16) >> (p as u16)) & 1 != 0)
        && (p <= 14 ==> ((((b0 as int * 0x1000000 + b1 as int * 0x10000 + b2 as int * 0x100
        + b3 as int) as u32) >> p) & 0b11) as u8 == ((((b2 as int * 0x100 + b3 as int) as u16)
        >> (p as u16)) & 0b11) as u8) && (p <= 12 ==> ((((b0 as int * 0x1000000 + b1 as int
        * 0x10000 + b2 as int * 0x100 + b3 as int) as u32) >> p) & 0xf) as u8 == ((((b2 as int
        * 0x100 + b3 as int) as u16) >> (p as u16)) & 0xf) as u8)) by (bit_vector)
        requires
            p <= 15,
    ;
}

/// The layout of an output data word: the conversion result is the first
/// two bytes, most significant first; below it, in the low half word, come
/// the appended fields that the data out control register includes, each
/// directly below the previous one, in this order and with these widths:
/// device address (4 bits, from bit 15 down), input range code (4), AVDD
/// high alarm flag (1), AVDD low alarm flag (1), input high alarm flag (1),
/// input low alarm flag (1), parity bits (2). A field not included is absent.
pub proof fn lemma_interpret_layout(word: OutputDataWord, ctl: DataOutCtl)
    ensures
        ({
            let r = word.spec_interpret(ctl);
            let lo = (word.0[2] as int * 0x100 + word.0[3] as int) as u16;
            let d: int = if ctl.spec_include_device_addr_value() { 4 } else { 0 };
            let g: int = if ctl.spec_include_range_value() { 4 } else { 0 };
            let vh: int = if ctl.spec_include_active_vdd_h_flag() { 1 } else { 0 };
            let vl: int = if ctl.spec_include_active_vdd_l_flag() { 1 } else { 0 };
            let ih: int = if ctl.spec_include_active_in_h_flag() { 1 } else { 0 };
            let il: int = if ctl.spec_include_active_in_l_flag() { 1 } else { 0 };
            &&& r.conversion_result == (word.0[0] as int * 0x100 + word.0[1] as int) as u16
            &&& r.device_address == if ctl.spec_include_device_addr_value() {
                Some(DeviceAddress(((lo >> 12u16) & 0xf) as u8))
            } else {
                None
            }
            &&& r.adc_input_range == if ctl.spec_include_range_value() {
                Some(AdcInputRanges::spec_from_bits(((lo >> ((12 - d) as u16)) & 0xf) as u8))
            } else {
                None
            }
            &&& r.avdd_alarm_high_flag == if ctl.spec_include_active_vdd_h_flag() {
                Some((lo >> ((15 - d - g) as u16)) & 1 != 0)
            } else {
                None
            }
            &&& r.avdd_alarm_low_flag == if ctl.spec_include_active_vdd_l_flag() {
                Some((lo >> ((15 - d - g - vh) as u16)) & 1 != 0)
            } else {
                None
            }
            &&& r.input_alarm_high_flag == if ctl.spec_include_active_in_h_flag() {
                Some((lo >> ((15 - d - g - vh - vl) as u16)) & 1 != 0)
            } else {
                None
            }
            &&& r.input_alarm_low_flag == if ctl.spec_include_active_in_l_flag() {
                Some((lo >> ((15 - d - g - vh - vl - ih) as u16)) & 1 != 0)
            } else {
                None
            }
            &&& r.parity_bits == if ctl.spec_enable_parity_bits() {
                Some(((lo >> ((14 - d - g - vh - vl - ih - il) as u16)) & 0b11) as u8)
            } else {
                None
            }
        }),
{
    let (b0, b1, b2, b3) = (word.0[0], word.0[1], word.0[2], word.0[3]);
    let d: int = if ctl.spec_include_device_addr_value() { 4 } else { 0 };
    let g: int = if ctl.spec_include_range_value() { 4 } else { 0 };
    let vh: int = if ctl.spec_include_active_vdd_h_flag() { 1 } else { 0 };
    let vl: int = if ctl.spec_include_active_vdd_l_flag() { 1 } else { 0 };
    let ih: int = if ctl.spec_include_active_in_h_flag() { 1 } else { 0 };
    let il: int = if ctl.spec_include_active_in_l_flag() { 1 } else { 0 };
    assert(OutputDataWord::field_position(ctl, 1) == 16 - d);
    assert(OutputDataWord::field_position(ctl, 2) == 16 - d - g);
    assert(ctl.spec_enable_parity_bits() ==> OutputDataWord::field_position(ctl, 7) == 14 - d - g
        - vh - vl - ih - il);
    assert(OutputDataWord::field_position(ctl, 3) == 16 - d - g - vh);
    assert(OutputDataWord::field_position(ctl, 4) == 16 - d - g - vh - vl);
    assert(OutputDataWord::field_position(ctl, 5) == 16 - d - g - vh - vl - ih);
    assert(OutputDataWord::field_position(ctl, 6) == 16 - d - g - vh - vl - ih - il);
    lemma_low_half_bits(b0, b1, b2, b3, 12);
    lemma_low_half_bits(b0, b1, b2, b3, (12 - d) as u32);
    lemma_low_half_bits(b0, b1, b2, b3, (15 - d - g) as u32);
    lemma_low_half_bits(b0, b1, b2, b3, (15 - d - g - vh) as u32);
    lemma_low_half_bits(b0, b1, b2, b3, (15 - d - g - vh - vl) as u32);
    lemma_low_half_bits(b0, b1, b2, b3, (15 - d - g - vh - vl - ih) as u32);
    lemma_low_half_bits(b0, b1, b2, b3, (14 - d - g - vh - vl - ih - il) as u32);
}

impl OutputDataWord {
    /// The four bytes read as one big-endian 32-bit number.
    pub open spec fn spec_number(self) -> u32 {
        (self.0[0] as int * 0x1000000 + self.0[1] as int * 0x10000 + self.0[2] as int * 0x100
            + self.0[3] as int) as u32
    }

    /// The conversion result: the first two bytes, most significant first.
    pub open spec fn spec_conversion_result(self) -> u16 {
        (self.0[0] as int * 0x100 + self.0[1] as int) as u16
    }

    /// The half word made of the first two bytes, most significant first: what
    /// a half-word read returns.
    pub open spec fn spec_register_hword(self) -> u16 {
        (self.0[0] as int * 0x100 + self.0[1] as int) as u16
    }

    /// The bit position at which the field appended after `k` fields ends,
    /// counting downward from bit 16 of the number. The appended fields come
    /// in this order, each only when the data out control register includes
    /// it: device address (4 bits), input range (4), AVDD high alarm flag (1),
    /// AVDD low alarm flag (1), input high alarm flag (1), input low alarm
    /// flag (1), parity bits (2).
    pub open spec fn field_position(ctl: DataOutCtl, k: int) -> int {
        16 - (if k >= 1 { included_width(ctl.spec_include_device_addr_value(), 4) } else { 0 })
            - (if k >= 2 { included_width(ctl.spec_include_range_value(), 4) } else { 0 })
            - (if k >= 3 { included_width(ctl.spec_include_active_vdd_h_flag(), 1) } else { 0 })
            - (if k >= 4 { included_width(ctl.spec_include_active_vdd_l_flag(), 1) } else { 0 })
            - (if k >= 5 { included_width(ctl.spec_include_active_in_h_flag(), 1) } else { 0 })
            - (if k >= 6 { included_width(ctl.spec_include_active_in_l_flag(), 1) } else { 0 })
            - (if k >= 7 { included_width(ctl.spec_enable_parity_bits(), 2) } else { 0 })
    }

    /// The `mask`-wide field of the number whose lowest bit is at `pos`.
    pub open spec fn bits_at(self, pos: int, mask: u32) -> u32 {
        (self.spec_number() >> (pos as u32)) & mask
    }

    /// Whether the input range code that the data out control register
    /// appends (if it does) is the code of one of the listed ranges. The code
    /// sits at bits 12..16 of the number's low half word when no device
    /// address is appended, at bits 8..12 when one is.
    pub open spec fn range_code_valid(self, ctl: DataOutCtl) -> bool {
        ctl.spec_include_range_value() ==> AdcInputRanges::is_valid_bits(
            self.bits_at(Self::field_position(ctl, 2), 0xf) as u8,
        )
    }

    /// The meaning of the word under the configuration of the data out
    /// control register.
    pub open spec fn spec_interpret(self, ctl: DataOutCtl) -> InterpretedOutputDataWord {
        InterpretedOutputDataWord {
            conversion_result: self.spec_conversion_result(),
            device_address: if ctl.spec_include_device_addr_value() {
                Some(DeviceAddress(self.bits_at(Self::field_position(ctl, 1), 0xf) as u8))
            } else {
                None
            },
            adc_input_range: if ctl.spec_include_range_value() {
                Some(
                    AdcInputRanges::spec_from_bits(
                        self.bits_at(Self::field_position(ctl, 2), 0xf) as u8,
                    ),
                )
            } else {
                None
            },
            avdd_alarm_high_flag: if ctl.spec_include_active_vdd_h_flag() {
                Some(self.bits_at(Self::field_position(ctl, 3), 1) != 0)
            } else {
                None
            },
            avdd_alarm_low_flag: if ctl.spec_include_active_vdd_l_flag() {
                Some(self.bits_at(Self::field_position(ctl, 4), 1) != 0)
            } else {
                None
            },
            input_alarm_high_flag: if ctl.spec_include_active_in_h_flag() {
                Some(self.bits_at(Self::field_position(ctl, 5), 1) != 0)
            } else {
                None
            },
            input_alarm_low_flag: if ctl.spec_include_active_in_l_flag() {
                Some(self.bits_at(Self::field_position(ctl, 6), 1) != 0)
            } else {
                None
            },
            parity_bits: if ctl.spec_enable_parity_bits() {
                Some(self.bits_at(Self::field_position(ctl, 7), 0b11) as u8)
            } else {
                None
            },
        }
    }

    /// The four bytes as one big-endian number.
    fn number(self) -> (r: u32)
        ensures
            r == self.spec_number(),
    {
        let b0 = self.0[0];
        let b1 = self.0[1];
        let b2 = self.0[2];
        let b3 = self.0[3];
        let r = ((b0 as u32) << 24u32) | ((b1 as u32) << 16u32) | ((b2 as u32) << 8u32) | (
        b3 as u32);
        proof {
            assert(((b0 as u32) << 24u32) | ((b1 as u32) << 16u32) | ((b2 as u32) << 8u32) | (
            b3 as u32) == (b0 as int * 0x1000000 + b1 as int * 0x10000 + b2 as int * 0x100
                + b3 as int) as u32) by (bit_vector);
        }
        r
    }

    /// The byte that a read command returns: the first byte clocked out.
    pub fn register_byte(self) -> (r: u8)
        ensures
            r == self.0[0],
    {
        self.0[0]
    }

    /// The half word that a half-word read returns: the first two bytes
    /// clocked out, most significant first.
    pub fn register_hword(self) -> (r: u16)
        ensures
            r == self.spec_register_hword(),
    {
        let b0 = self.0[0];
        let b1 = self.0[1];
        proof {
            assert(((b0 as u16) << 8u16) | (b1 as u16) == (b0 as int * 0x100 + b1 as int) as u16)
                by (bit_vector);
        }
        ((b0 as u16) << 8u16) | (b1 as u16)
    }

    /// Just get the conversion result from this [`OutputDataWord`].
    pub fn get_conversion_result(self) -> (r: u16)
        ensures
            r == self.spec_conversion_result(),
    {
        let number = self.number();
        let b0 = self.0[0];
        let b1 = self.0[1];
        proof {
            assert(number == (b0 as int * 0x1000000 + b1 as int * 0x10000 + self.0[2] as int
                * 0x100 + self.0[3] as int) as u32);
            let b2 = self.0[2];
            let b3 = self.0[3];
            assert(((b0 as int * 0x1000000 + b1 as int * 0x10000 + b2 as int * 0x100
                + b3 as int) as u32 >> 16u32) as u16 == (b0 as int * 0x100 + b1 as int) as u16)
                by (bit_vector);
        }
        (number >> 16u32) as u16
    }

    /// Interpret the output of this [`OutputDataWord`] with the configuration
    /// stored in the [`DataOutCtl`] register.
    pub fn interpret(self, dataout_ctl: &DataOutCtl) -> (r: InterpretedOutputDataWord)
        requires
            self.range_code_valid(*dataout_ctl),
        ensures
            r == self.spec_interpret(*dataout_ctl),
            r.conversion_result == self.spec_conversion_result(),
            r.device_address is Some <==> dataout_ctl.spec_include_device_addr_value(),
            r.adc_input_range is Some <==> dataout_ctl.spec_include_range_value(),
            r.avdd_alarm_high_flag is Some <==> dataout_ctl.spec_include_active_vdd_h_flag(),
            r.avdd_alarm_low_flag is Some <==> dataout_ctl.spec_include_active_vdd_l_flag(),
            r.input_alarm_high_flag is Some <==> dataout_ctl.spec_include_active_in_h_flag(),
            r.input_alarm_low_flag is Some <==> dataout_ctl.spec_include_active_in_l_flag(),
            r.parity_bits is Some <==> dataout_ctl.spec_enable_parity_bits(),
    {
        let ghost ctl = *dataout_ctl;
        let number = self.number();
        let conversion_result = self.get_conversion_result();
        let mut shift_index: u32 = 16;
        let device_address = if dataout_ctl.include_device_addr_value() {
            shift_index -= 4;
            Some(DeviceAddress(((number >> shift_index) & 0b1111) as u8))
        } else {
            None
        };
        assert(shift_index == Self::field_position(ctl, 1));
        let adc_input_range = if dataout_ctl.include_range_value() {
            shift_index -= 4;
            Some(AdcInputRanges::from_bits(((number >> shift_index) & 0b1111) as u8))
        } else {
            None
        };
        assert(shift_index == Self::field_position(ctl, 2));
        let avdd_alarm_high_flag = if dataout_ctl.include_active_vdd_h_flag() {
            shift_index -= 1;
            Some((number >> shift_index) & 0b1 != 0)
        } else {
            None
        };
        assert(shift_index == Self::field_position(ctl, 3));
        let avdd_alarm_low_flag = if dataout_ctl.include_active_vdd_l_flag() {
            shift_index -= 1;
            Some((number >> shift_index) & 0b1 != 0)
        } else {
            None
        };
        assert(shift_index == Self::field_position(ctl, 4));
        let input_alarm_high_flag = if dataout_ctl.include_active_in_h_flag() {
            shift_index -= 1;
            Some((number >> shift_index) & 0b1 != 0)
        } else {
            None
        };
        assert(shift_index == Self::field_position(ctl, 5));
        let input_alarm_low_flag = if dataout_ctl.include_active_in_l_flag() {
            shift_index -= 1;
            Some((number >> shift_index) & 0b1 != 0)
        } else {
            None
        };
        assert(shift_index == Self::field_position(ctl, 6));
        let parity_bits = if dataout_ctl.enable_parity_bits() {
            shift_index -= 2;
            Some(((number >> shift_index) & 0b11) as u8)
        } else {
            None
        };
        assert(shift_index == Self::field_position(ctl, 7));
        InterpretedOutputDataWord {
            conversion_result,
            device_address,
            adc_input_range,
            avdd_alarm_high_flag,
            avdd_alarm_low_flag,
            input_alarm_high_flag,
            input_alarm_low_flag,
            parity_bits,
        }
    }
}

} // verus!
