use ads8681::{
    registers, run, Ads8681Response, Ads8681Request, CommandBits, CommandInterface, DataOutCtl, DeviceAddress,
    InputCommand, OutputDataWord, RangeSel, RstPwrCtrl, SdiMode, SdoCtl,
};

/// An interface that records the frames clocked in and answers every command
/// with a fixed output data word.
struct Recorder {
    frames: Vec<[u8; 4]>,
    answer: [u8; 4],
    fail_after: Option<usize>,
}

impl CommandInterface for Recorder {
    type Error = ();

    fn wait_for_rvs(&mut self) -> Result<(), ()> {
        Ok(())
    }

    fn exchange(&mut self, command: InputCommand) -> Result<OutputDataWord, ()> {
        self.frames.push(command.frame());
        if self.fail_after.map_or(false, |n| self.frames.len() > n) {
            return Err(());
        }
        Ok(OutputDataWord(self.answer))
    }
}

#[test]
fn provided_commands_send_their_frames() {
    let mut r = Recorder { frames: Vec::new(), answer: [0xAB, 0xCD, 0xEF, 0x01], fail_after: None };
    assert_eq!(r.noop().unwrap().0, [0xAB, 0xCD, 0xEF, 0x01]);
    assert_eq!(r.read_hword(registers::SDO_CTL_REG()).unwrap(), 0xABCD);
    assert_eq!(r.read(registers::RANGE_SEL_REG()).unwrap(), 0xAB);
    r.clear_hword(registers::ALARM_REG(), 0x00F0).unwrap();
    r.write_hword(registers::ALARM_L_TH_REG(), 0x1234).unwrap();
    r.write_hword_ms(registers::RST_PWRCTL_REG(), 0x6900).unwrap();
    r.write_hword_ls(registers::SDI_CTL_REG(), 0x0003).unwrap();
    r.set_hword(registers::DATAOUT_CTL_REG(), 0x0100).unwrap();
    assert_eq!(
        r.frames,
        vec![
            [0x00, 0x00, 0x00, 0x00],
            [0xC8, 0x0C, 0x00, 0x00],
            [0x48, 0x14, 0x00, 0x00],
            [0xC0, 0x20, 0x00, 0xF0],
            [0xD0, 0x28, 0x12, 0x34],
            [0xD2, 0x04, 0x69, 0x00],
            [0xD4, 0x08, 0x00, 0x03],
            [0xD8, 0x10, 0x01, 0x00],
        ]
    );
}

#[test]
fn every_access_clocks_in_a_command() {
    let requests = [
        Ads8681Request::GetDataOutput,
        Ads8681Request::SetDeviceAddress(DeviceAddress(1)),
        Ads8681Request::GetDeviceAddress,
        Ads8681Request::GetRstPwrCtrl,
        Ads8681Request::SetRstPwrCtrl(RstPwrCtrl::new()),
        Ads8681Request::GetSdiCtl,
        Ads8681Request::SetSdiCtl(SdiMode::new()),
        Ads8681Request::GetSdoCtl,
        Ads8681Request::SetSdoCtl(SdoCtl::new()),
        Ads8681Request::GetDataoutCtl,
        Ads8681Request::SetDataoutCtl(DataOutCtl::new()),
        Ads8681Request::GetRangeSel,
        Ads8681Request::SetRangeSel(RangeSel::new()),
        Ads8681Request::GetAlarm,
        Ads8681Request::GetAlarmHysteresis,
        Ads8681Request::SetAlarmHysteresis(2),
        Ads8681Request::GetInpAlarmHighThreshold,
        Ads8681Request::SetInpAlarmHighThreshold(2),
        Ads8681Request::GetInpAlarmLowThreshold,
        Ads8681Request::SetInpAlarmLowThreshold(2),
    ];
    for request in requests {
        let commands = request.commands();
        assert!(!commands.is_empty());
        let reads = commands
            .iter()
            .filter(|c| matches!(c.command, CommandBits::Read | CommandBits::ReadHword))
            .count();
        let is_get = format!("{:?}", request).starts_with("Get");
        assert_eq!(reads > 0, is_get && request != Ads8681Request::GetDataOutput);
    }
}

#[test]
fn run_exchanges_every_command_and_decodes_the_last_reply() {
    let mut r = Recorder { frames: Vec::new(), answer: [0x12, 0x34, 0, 0], fail_after: None };
    let v = RstPwrCtrl::from_bits(0b0010_0001);
    match run(&mut r, &Ads8681Request::SetRstPwrCtrl(v)) {
        Ok(Some(Ads8681Response::DataOutput(w))) => assert_eq!(w.0, [0x12, 0x34, 0, 0]),
        other => panic!("unexpected result {:?}", other),
    }
    assert_eq!(
        r.frames,
        vec![[0xD2, 0x04, 0x69, 0x00], [0xD4, 0x04, 0x00, 0x21], [0xD2, 0x04, 0x00, 0x00]]
    );
    match run(&mut r, &Ads8681Request::GetInpAlarmLowThreshold) {
        Ok(Some(Ads8681Response::Hword(h))) => assert_eq!(h, 0x1234),
        other => panic!("unexpected result {:?}", other),
    }
    assert_eq!(r.frames.len(), 4);
}

#[test]
fn run_stops_at_the_first_failed_exchange() {
    let mut r = Recorder { frames: Vec::new(), answer: [0, 0, 0, 0], fail_after: Some(1) };
    assert!(run(&mut r, &Ads8681Request::SetRstPwrCtrl(RstPwrCtrl::new())).is_err());
    assert_eq!(r.frames.len(), 2);
}

#[test]
fn run_reports_an_undecodable_reply() {
    let mut r = Recorder { frames: Vec::new(), answer: [0x07, 0, 0, 0], fail_after: None };
    assert!(matches!(run(&mut r, &Ads8681Request::GetRangeSel), Ok(None)));
    r.answer = [0x0A, 0, 0, 0];
    match run(&mut r, &Ads8681Request::GetRangeSel) {
        Ok(Some(Ads8681Response::RangeSel(v))) => assert_eq!(v.into_bits(), 0x0A),
        other => panic!("unexpected result {:?}", other),
    }
}
