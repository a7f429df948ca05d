use ads8681::{
    AdcInputRanges, DataOutCtl, DataOutCtlBuilder, DeviceAddress, InterpretedOutputDataWord,
    OutputDataWord,
};

#[test]
fn conversion_result_is_first_two_bytes() {
    let w = OutputDataWord([0xAB, 0xCD, 0x12, 0x34]);
    assert_eq!(w.get_conversion_result(), 0xABCD);
    assert_eq!(w.register_hword(), 0xABCD);
    assert_eq!(w.register_byte(), 0xAB);
}

#[test]
fn interpret_every_appended_field() {
    let ctl = DataOutCtlBuilder::new()
        .with_include_device_addr_value(true)
        .with_include_range_value(true)
        .with_include_active_vdd_h_flag(true)
        .with_include_active_vdd_l_flag(true)
        .with_include_active_in_h_flag(true)
        .with_include_active_in_l_flag(true)
        .with_enable_parity_bits(true)
        .build();
    let w = OutputDataWord([0x12, 0x34, 0xAB, 0b1010_1000]);
    assert_eq!(
        w.interpret(&ctl),
        InterpretedOutputDataWord {
            conversion_result: 0x1234,
            device_address: Some(DeviceAddress(0xA)),
            adc_input_range: Some(AdcInputRanges::OnePointTwoFive),
            avdd_alarm_high_flag: Some(true),
            avdd_alarm_low_flag: Some(false),
            input_alarm_high_flag: Some(true),
            input_alarm_low_flag: Some(false),
            parity_bits: Some(0b10),
        }
    );
}

#[test]
fn interpret_nothing_appended() {
    let w = OutputDataWord([0xFF, 0x00, 0xFF, 0xFF]);
    assert_eq!(
        w.interpret(&DataOutCtl::new()),
        InterpretedOutputDataWord {
            conversion_result: 0xFF00,
            device_address: None,
            adc_input_range: None,
            avdd_alarm_high_flag: None,
            avdd_alarm_low_flag: None,
            input_alarm_high_flag: None,
            input_alarm_low_flag: None,
            parity_bits: None,
        }
    );
}

#[test]
fn interpret_packs_included_fields_downward() {
    // Only the range code and the input low flag and the parity bits:
    // range at bits 15..12, input low flag at bit 11, parity at bits 10..9.
    let ctl = DataOutCtlBuilder::new()
        .with_include_range_value(true)
        .with_include_active_in_l_flag(true)
        .with_enable_parity_bits(true)
        .build();
    let w = OutputDataWord([0x00, 0x01, 0b1001_1010, 0x00]);
    let r = w.interpret(&ctl);
    assert_eq!(r.conversion_result, 1);
    assert_eq!(r.device_address, None);
    assert_eq!(r.adc_input_range, Some(AdcInputRanges::TwoPointFive));
    assert_eq!(r.avdd_alarm_high_flag, None);
    assert_eq!(r.input_alarm_low_flag, Some(true));
    assert_eq!(r.parity_bits, Some(0b01));
}
