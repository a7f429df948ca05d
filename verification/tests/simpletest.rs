use ads8681::{
    Ads8681Request, Ads8681Response, DataOutCtlBuilder, OutputDataWord, RangeSelBuilder,
};

/// The frames that a register access clocks in, in order.
fn frames(request: &Ads8681Request) -> Vec<[u8; 4]> {
    request.commands().into_iter().map(|c| c.frame()).collect()
}

#[test]
fn noop() {
    let request = Ads8681Request::GetDataOutput;
    assert_eq!(frames(&request), vec![[0, 0, 0, 0]]);
    let reply = OutputDataWord([0x12, 0x34, 0, 0]);
    assert!(request.accepts_reply(&reply));
    let output_data_word = match request.response(reply) {
        Ads8681Response::DataOutput(word) => word,
        other => panic!("unexpected response {:?}", other),
    };
    assert_eq!(output_data_word.get_conversion_result(), 0x1234);
}

#[test]
fn write_data_out() {
    let data_out = DataOutCtlBuilder::new()
        .with_data_val(ads8681::DataVal::ConversionData)
        .with_enable_parity_bits(false)
        .with_include_range_value(true)
        .with_include_active_in_h_flag(true)
        .with_include_active_in_l_flag(true)
        .with_include_active_vdd_h_flag(true)
        .with_include_active_vdd_l_flag(true)
        .with_include_device_addr_value(true)
        .build();
    assert_eq!(data_out.into_bits(), 0b01111101_00000000);
    let request = Ads8681Request::SetDataoutCtl(data_out);
    assert_eq!(frames(&request), vec![[0b11010_000, 0x10, 0b01111101, 0b00000000]]);
    assert!(matches!(
        request.response(OutputDataWord([0, 0, 0, 0])),
        Ads8681Response::DataOutput(_)
    ));
}

#[test]
fn change_range_sel() {
    let range_sel = RangeSelBuilder::new()
        .with_disable_internal_adc_reference(false)
        .with_range_sel(ads8681::AdcInputRanges::OnePointTwoFive)
        .build();
    let request = Ads8681Request::SetRangeSel(range_sel);
    assert_eq!(
        frames(&request),
        vec![0b1101010_0_00010100_0000000000001011u32.to_be_bytes()]
    );
}
