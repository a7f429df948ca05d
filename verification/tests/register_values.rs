use ads8681::{
    AdcInputRanges, Alarm, AlarmBuilder, DataOutCtl, DataOutCtlBuilder, DataVal, RangeSel,
    RangeSelBuilder, ResetPinFunction, RstPwrCtrl, RstPwrCtrlBuilder, Sdo1Mode, SdoCtl,
    SdoCtlBuilder, SdoMode, SdiMode, SdiModeBuilder,
};

#[test]
fn rst_pwrctrl_reads_each_field() {
    let v = RstPwrCtrl::from_bits(0b0011_0111);
    assert!(v.power_down());
    assert!(v.nap_mode_enabled());
    assert_eq!(v.reset_pin_function(), ResetPinFunction::ApplicationReset);
    assert!(v.input_alarm_enabled());
    assert!(v.vdd_alarm_enabled());
    assert_eq!(v.into_bits(), 0b0011_0111);
    let z = RstPwrCtrl::new();
    assert!(!z.power_down());
    assert_eq!(z.reset_pin_function(), ResetPinFunction::PorClassReset);
    assert_eq!(z.into_bits(), 0);
}

#[test]
fn rst_pwrctrl_setter_keeps_other_bits() {
    let mut v = RstPwrCtrl::from_bits(0xFF);
    v.set_power_down(false);
    assert_eq!(v.into_bits(), 0xFE);
    v.set_reset_pin_function(ResetPinFunction::PorClassReset);
    assert_eq!(v.into_bits(), 0xFA);
    assert!(v.nap_mode_enabled());
    v.set_vdd_alarm_enabled(false);
    assert_eq!(v.into_bits(), 0xDA);
    v.set_power_down(true);
    assert!(v.power_down());
    assert_eq!(v.into_bits(), 0xDB);
}

#[test]
fn rst_pwrctrl_builder() {
    let v = RstPwrCtrlBuilder::new()
        .with_nap_mode_enabled(true)
        .with_input_alarm_enabled(true)
        .build();
    assert_eq!(v.into_bits(), 0b0001_0010);
}

#[test]
fn sdi_mode_fields() {
    let m = SdiModeBuilder::new().with_cpol(true).build();
    assert_eq!(m.into_bits(), 0b10);
    assert!(m.cpol());
    assert!(!m.cphase());
    let mut m = SdiMode::from_bits(0b1111_1101);
    m.set_cphase(false);
    assert_eq!(m.into_bits(), 0b1111_1100);
}

#[test]
fn sdo_ctl_from_bits_normalizes_sdo_mode() {
    let v = SdoCtl::from_bits(0b01);
    assert_eq!(v.sdo_mode(), SdoMode::SameAsSdi);
    assert_eq!(v.into_bits(), 0);
    let v = SdoCtl::from_bits(0xFFFD);
    assert_eq!(v.sdo_mode(), SdoMode::SameAsSdi);
    assert_eq!(v.into_bits(), 0xFFFC);
    let v = SdoCtl::from_bits(0b10);
    assert_eq!(v.sdo_mode(), SdoMode::InvalidConfiguration);
    assert_eq!(v.into_bits(), 0b10);
    let v = SdoCtl::from_bits(0b11);
    assert_eq!(v.sdo_mode(), SdoMode::AdcControllerClockOrSourceSynchronous);
}

#[test]
fn sdo_ctl_fields() {
    let v = SdoCtlBuilder::new()
        .with_sdo1_config(Sdo1Mode::TwoBitWithSdo0)
        .with_gpo_val(true)
        .with_use_internal_clock(true)
        .build();
    assert_eq!(v.into_bits(), 0x1340);
    assert_eq!(v.sdo1_config(), Sdo1Mode::TwoBitWithSdo0);
    assert!(v.gpo_val());
    assert!(v.use_internal_clock());
    let mut w = v;
    w.set_sdo1_config(Sdo1Mode::FunctionsAsAlarm);
    assert_eq!(w.into_bits(), 0x1140);
    w.set_sdo_mode(SdoMode::AdcControllerClockOrSourceSynchronous);
    assert_eq!(w.into_bits(), 0x1143);
}

#[test]
fn data_out_ctl_from_bits_normalizes_data_val() {
    let v = DataOutCtl::from_bits(0b011);
    assert_eq!(v.data_val(), DataVal::ConversionData);
    assert_eq!(v.into_bits(), 0);
    let v = DataOutCtl::from_bits(0b1000_0000_0000_1101);
    assert_eq!(v.data_val(), DataVal::AllOnes);
    assert!(v.enable_parity_bits());
    assert_eq!(v.into_bits(), 0b1000_0000_0000_1101);
}

#[test]
fn data_out_ctl_flags() {
    let v = DataOutCtlBuilder::new()
        .with_data_val(DataVal::AlternatingDoubleZerosAndOnes)
        .with_include_active_vdd_l_flag(true)
        .build();
    assert_eq!(v.into_bits(), 0b0010_0000_0000_0111);
    assert!(v.include_active_vdd_l_flag());
    assert!(!v.include_active_vdd_h_flag());
    assert!(!v.include_device_addr_value());
}

#[test]
fn range_sel_fields() {
    let v = RangeSel::from_bits(0x4B);
    assert_eq!(v.range_sel(), AdcInputRanges::OnePointTwoFive);
    assert!(v.disable_internal_adc_reference());
    let mut w = v;
    w.set_range_sel(AdcInputRanges::PlusMinusSubZero);
    assert_eq!(w.into_bits(), 0x44);
    w.set_disable_internal_adc_reference(false);
    assert_eq!(w.into_bits(), 0x04);
    let b = RangeSelBuilder::new().with_range_sel(AdcInputRanges::Three).build();
    assert_eq!(b.into_bits(), 0b1000);
}

#[test]
fn alarm_flags() {
    let a = Alarm::from_bits(0b1000_0100_0011_0001);
    assert!(a.ovw_alarm());
    assert!(a.trip_high_input_voltage());
    assert!(a.trip_low_input_voltage());
    assert!(!a.trip_high_avdd());
    assert!(!a.trip_low_avdd());
    assert!(a.high_input_voltage());
    assert!(!a.low_input_voltage());
    assert!(!a.high_avdd_voltage());
    assert!(a.low_avdd_voltage());
    let b = AlarmBuilder::new().with_high_avdd_voltage(true).build();
    assert_eq!(b.into_bits(), 0x4000);
}

#[test]
fn field_codes_round_trip() {
    for r in [ResetPinFunction::PorClassReset, ResetPinFunction::ApplicationReset] {
        assert_eq!(ResetPinFunction::from_bits(r.into_bits()), r);
    }
    assert_eq!(ResetPinFunction::from_bits(7), ResetPinFunction::ApplicationReset);
    for m in [
        SdoMode::SameAsSdi,
        SdoMode::InvalidConfiguration,
        SdoMode::AdcControllerClockOrSourceSynchronous,
    ] {
        assert_eq!(SdoMode::from_bits(m.into_bits()), m);
    }
    assert_eq!(SdoMode::InvalidConfiguration.into_bits(), 0b10);
    for code in 0..4u8 {
        assert_eq!(Sdo1Mode::from_bits(code).into_bits(), code);
    }
    assert_eq!(DataVal::from_bits(0b010), DataVal::ConversionData);
    for code in 4..8u8 {
        assert_eq!(DataVal::from_bits(code).into_bits(), code);
    }
    for code in [0u8, 1, 2, 3, 4, 8, 9, 10, 11] {
        assert_eq!(AdcInputRanges::from_bits(code).into_bits(), code);
    }
    assert_eq!(AdcInputRanges::from_bits(0b0100), AdcInputRanges::PlusMinusSubZero);
    assert_eq!(AdcInputRanges::from_bits(0b1010), AdcInputRanges::OnePointFive);
}

#[test]
fn raw_bit_conversions() {
    let v = RstPwrCtrl::from(0x21u8);
    assert_eq!(u8::from(v), 0x21);
    let m: SdiMode = 0b11u8.into();
    assert!(m.cphase() && m.cpol());
    let s = SdoCtl::from(0x0101u16);
    assert_eq!(u16::from(s), 0x0100);
    let d = DataOutCtl::from(0x0102u16);
    assert_eq!(u16::from(d), 0x0100);
    let a = Alarm::from(0x8000u16);
    assert!(a.low_avdd_voltage());
    assert_eq!(u16::from(a), 0x8000);
    assert_eq!(u8::from(RangeSel::from_bits(0x09)), 0x09);
}
