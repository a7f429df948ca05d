use ads8681::command::InputCommand;
use ads8681::{registers, CommandBits};

#[test]
fn command_codes_in_frames() {
    let reg = registers::SDO_CTL_REG();
    let cases = [
        (CommandBits::Noop, 0b0000000_0u8),
        (CommandBits::ClearHword, 0b1100000_0),
        (CommandBits::ReadHword, 0b1100100_0),
        (CommandBits::Read, 0b0100100_0),
        (CommandBits::WriteHword, 0b1101000_0),
        (CommandBits::WriteHwordMs, 0b1101001_0),
        (CommandBits::WriteHwordLs, 0b1101010_0),
        (CommandBits::SetHword, 0b1101100_0),
    ];
    for (command, byte) in cases {
        assert_eq!(reg.form_full_command(command, 0xBEEF), [byte, 0x0C, 0xBE, 0xEF]);
    }
}

#[test]
fn distinct_commands_distinct_frames() {
    let reg = registers::ALARM_REG();
    let all = [
        CommandBits::Noop,
        CommandBits::ClearHword,
        CommandBits::ReadHword,
        CommandBits::Read,
        CommandBits::WriteHword,
        CommandBits::WriteHwordMs,
        CommandBits::WriteHwordLs,
        CommandBits::SetHword,
    ];
    for (i, a) in all.iter().enumerate() {
        for (j, b) in all.iter().enumerate() {
            let same = reg.form_full_command(*a, 7) == reg.form_full_command(*b, 7);
            assert_eq!(same, i == j);
        }
    }
}

#[test]
fn one_byte_higher_addresses() {
    let dev = registers::DEVICE_ID_REG().one_byte_higher().one_byte_higher();
    assert_eq!(dev.form_full_command(CommandBits::Read, 0), [0b0100100_0, 0x02, 0, 0]);
    let hyst = registers::ALARM_H_TH_REG().one_byte_higher().one_byte_higher().one_byte_higher();
    assert_eq!(hyst.form_full_command(CommandBits::Read, 0)[1], 0x27);
}

#[test]
fn command_constructors() {
    let reg = registers::RANGE_SEL_REG();
    assert_eq!(InputCommand::noop().frame(), [0, 0, 0, 0]);
    assert_eq!(InputCommand::clear_hword(reg, 0x0102).frame(), [0xC0, 0x14, 0x01, 0x02]);
    assert_eq!(InputCommand::read_hword(reg).frame(), [0xC8, 0x14, 0, 0]);
    assert_eq!(InputCommand::read(reg).frame(), [0x48, 0x14, 0, 0]);
    assert_eq!(InputCommand::write_hword(reg, 0xA55A).frame(), [0xD0, 0x14, 0xA5, 0x5A]);
    assert_eq!(InputCommand::write_hword_ms(reg, 0xA500).frame(), [0xD2, 0x14, 0xA5, 0x00]);
    assert_eq!(InputCommand::write_hword_ls(reg, 0x005A).frame(), [0xD4, 0x14, 0x00, 0x5A]);
    assert_eq!(InputCommand::set_hword(reg, 0x8001).frame(), [0xD8, 0x14, 0x80, 0x01]);
}
