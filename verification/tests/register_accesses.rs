use ads8681::{
    Ads8681Request, Ads8681Response, AdcInputRanges, DeviceAddress, OutputDataWord,
    RangeSelBuilder, ResetPinFunction, RstPwrCtrlBuilder, SdoCtlBuilder, SdoMode,
};

fn frames(request: &Ads8681Request) -> Vec<[u8; 4]> {
    request.commands().into_iter().map(|c| c.frame()).collect()
}

#[test]
fn set_rst_pwrctrl_unlocks_writes_and_locks() {
    let v = RstPwrCtrlBuilder::new()
        .with_reset_pin_function(ResetPinFunction::ApplicationReset)
        .with_vdd_alarm_enabled(true)
        .build();
    assert_eq!(
        frames(&Ads8681Request::SetRstPwrCtrl(v)),
        vec![[0xD2, 0x04, 0x69, 0x00], [0xD4, 0x04, 0x00, 0b0010_0100], [0xD2, 0x04, 0x00, 0x00]]
    );
}

#[test]
fn register_reads() {
    assert_eq!(frames(&Ads8681Request::GetDeviceAddress), vec![[0x48, 0x02, 0, 0]]);
    assert_eq!(frames(&Ads8681Request::GetRstPwrCtrl), vec![[0x48, 0x04, 0, 0]]);
    assert_eq!(frames(&Ads8681Request::GetSdiCtl), vec![[0x48, 0x08, 0, 0]]);
    assert_eq!(frames(&Ads8681Request::GetSdoCtl), vec![[0xC8, 0x0C, 0, 0]]);
    assert_eq!(frames(&Ads8681Request::GetDataoutCtl), vec![[0xC8, 0x10, 0, 0]]);
    assert_eq!(frames(&Ads8681Request::GetRangeSel), vec![[0x48, 0x14, 0, 0]]);
    assert_eq!(frames(&Ads8681Request::GetAlarm), vec![[0xC8, 0x20, 0, 0]]);
    assert_eq!(frames(&Ads8681Request::GetAlarmHysteresis), vec![[0x48, 0x27, 0, 0]]);
    assert_eq!(frames(&Ads8681Request::GetInpAlarmHighThreshold), vec![[0xC8, 0x24, 0, 0]]);
    assert_eq!(frames(&Ads8681Request::GetInpAlarmLowThreshold), vec![[0xC8, 0x28, 0, 0]]);
}

#[test]
fn register_writes() {
    assert_eq!(
        frames(&Ads8681Request::SetDeviceAddress(DeviceAddress(0x5))),
        vec![[0xD4, 0x02, 0x00, 0x05]]
    );
    assert_eq!(
        frames(&Ads8681Request::SetAlarmHysteresis(0x3C)),
        vec![[0xD2, 0x27, 0x3C, 0x00]]
    );
    assert_eq!(
        frames(&Ads8681Request::SetInpAlarmHighThreshold(0xFFF0)),
        vec![[0xD0, 0x24, 0xFF, 0xF0]]
    );
    assert_eq!(
        frames(&Ads8681Request::SetInpAlarmLowThreshold(0x0010)),
        vec![[0xD0, 0x28, 0x00, 0x10]]
    );
}

#[test]
fn read_back_after_write() {
    let v = SdoCtlBuilder::new()
        .with_sdo_mode(SdoMode::AdcControllerClockOrSourceSynchronous)
        .with_gpo_val(true)
        .build();
    let write = frames(&Ads8681Request::SetSdoCtl(v));
    assert_eq!(write, vec![[0xD0, 0x0C, 0x10, 0x03]]);
    let reply = OutputDataWord([write[0][2], write[0][3], 0, 0]);
    match Ads8681Request::GetSdoCtl.response(reply) {
        Ads8681Response::SdoCtl(w) => assert_eq!(w, v),
        other => panic!("unexpected response {:?}", other),
    }

    let r = RangeSelBuilder::new().with_range_sel(AdcInputRanges::TwoPointFive).build();
    let write = frames(&Ads8681Request::SetRangeSel(r));
    let reply = OutputDataWord([write[0][3], 0, 0, 0]);
    assert!(Ads8681Request::GetRangeSel.accepts_reply(&reply));
    match Ads8681Request::GetRangeSel.response(reply) {
        Ads8681Response::RangeSel(w) => assert_eq!(w, r),
        other => panic!("unexpected response {:?}", other),
    }

    let write = frames(&Ads8681Request::SetAlarmHysteresis(0x81));
    let reply = OutputDataWord([write[0][2], 0, 0, 0]);
    assert!(matches!(
        Ads8681Request::GetAlarmHysteresis.response(reply),
        Ads8681Response::Byte(0x81)
    ));

    let reply = OutputDataWord([0x05, 0, 0, 0]);
    assert!(matches!(
        Ads8681Request::GetDeviceAddress.response(reply),
        Ads8681Response::DeviceAddress(DeviceAddress(5))
    ));
}

#[test]
fn range_sel_read_rejects_unknown_code() {
    assert!(!Ads8681Request::GetRangeSel.accepts_reply(&OutputDataWord([0x05, 0, 0, 0])));
    assert!(!Ads8681Request::GetRangeSel.accepts_reply(&OutputDataWord([0x4F, 0, 0, 0])));
    assert!(Ads8681Request::GetRangeSel.accepts_reply(&OutputDataWord([0xF8, 0, 0, 0])));
    assert!(Ads8681Request::GetAlarm.accepts_reply(&OutputDataWord([0x05, 0, 0, 0])));
}

#[test]
fn write_accesses_return_the_last_word() {
    let reply = OutputDataWord([0x80, 0x00, 0x12, 0x34]);
    match Ads8681Request::SetInpAlarmLowThreshold(3).response(reply) {
        Ads8681Response::DataOutput(w) => assert_eq!(w.0, [0x80, 0x00, 0x12, 0x34]),
        other => panic!("unexpected response {:?}", other),
    }
    match Ads8681Request::GetInpAlarmHighThreshold.response(reply) {
        Ads8681Response::Hword(h) => assert_eq!(h, 0x8000),
        other => panic!("unexpected response {:?}", other),
    }
}
