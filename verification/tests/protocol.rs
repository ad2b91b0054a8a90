//! Tests of the command set, the register map, the input ranges and the
//! frame format.

use ads8681_driver::command::{decode_response, encode_command, extract_adc_data, extract_register_data};
use ads8681_driver::{Command, InputRange, Register, DEVICE_ID, RANGE_MASK, RST_BIT};

const ALL_RANGES: [InputRange; 9] = [
    InputRange::BipolarThreeVref,
    InputRange::BipolarTwoPointFiveVref,
    InputRange::BipolarOnePointFiveVref,
    InputRange::BipolarOnePointTwoFiveVref,
    InputRange::BipolarZeroPointSixTwoFiveVref,
    InputRange::UnipolarThreeVref,
    InputRange::UnipolarTwoPointFiveVref,
    InputRange::UnipolarOnePointFiveVref,
    InputRange::UnipolarOnePointTwoFiveVref,
];

const ALL_COMMANDS: [Command; 8] = [
    Command::Nop,
    Command::ClearHword,
    Command::ReadHword,
    Command::Read,
    Command::WriteFull,
    Command::WriteMs,
    Command::WriteLs,
    Command::SetHword,
];

const ALL_REGISTERS: [Register; 9] = [
    Register::DeviceId,
    Register::RstPwrctl,
    Register::SdiCtl,
    Register::SdoCtl,
    Register::DataoutCtl,
    Register::RangeSel,
    Register::Alarm,
    Register::AlarmHTh,
    Register::AlarmLTh,
];

#[test]
fn test_range_is_bipolar() {
    assert!(InputRange::BipolarThreeVref.is_bipolar());
    assert!(InputRange::BipolarZeroPointSixTwoFiveVref.is_bipolar());
    assert!(!InputRange::UnipolarThreeVref.is_bipolar());
}

#[test]
fn test_range_is_unipolar() {
    assert!(InputRange::UnipolarThreeVref.is_unipolar());
    assert!(!InputRange::BipolarThreeVref.is_unipolar());
}

#[test]
fn test_from_register_value() {
    assert_eq!(InputRange::from_register_value(0b0000), Some(InputRange::BipolarThreeVref));
    assert_eq!(InputRange::from_register_value(0b1000), Some(InputRange::UnipolarThreeVref));
    assert_eq!(InputRange::from_register_value(0b0101), None);
}

#[test]
fn range_codes_round_trip() {
    for range in ALL_RANGES {
        assert_eq!(InputRange::from_register_value(range.value()), Some(range));
        // Reserved bits above the range field are ignored.
        assert_eq!(InputRange::from_register_value(range.value() | 0xFFF0), Some(range));
        assert!((range.value() & !RANGE_MASK) == 0);
        assert_eq!(range.is_bipolar(), range.value() < 8);
        assert_eq!(range.is_unipolar(), !range.is_bipolar());
    }
    for code in [0b0101u16, 0b0110, 0b0111, 0b1100, 0b1101, 0b1110, 0b1111] {
        assert_eq!(InputRange::from_register_value(code), None);
    }
}

#[test]
fn range_values_and_names() {
    assert_eq!(InputRange::BipolarZeroPointSixTwoFiveVref.value(), 0b0100);
    assert_eq!(InputRange::UnipolarOnePointTwoFiveVref.value(), 0b1011);
    assert_eq!(InputRange::BipolarThreeVref.name(), "±3×Vref");
    assert_eq!(InputRange::UnipolarOnePointTwoFiveVref.name(), "0-1.25×Vref");
}

#[test]
fn command_opcodes_and_kinds() {
    assert_eq!(Command::Nop.opcode(), 0b0000000);
    assert_eq!(Command::ReadHword.opcode(), 0b1100100);
    assert_eq!(Command::SetHword.opcode(), 0b1101100);
    for (i, a) in ALL_COMMANDS.iter().enumerate() {
        assert!(a.opcode() < 128);
        assert!(!(a.is_write() && a.is_read()));
        for b in &ALL_COMMANDS[i + 1..] {
            assert_ne!(a.opcode(), b.opcode());
        }
    }
    assert!(Command::WriteMs.is_write());
    assert!(Command::ClearHword.is_write());
    assert!(!Command::Nop.is_write());
    assert!(Command::Read.is_read());
    assert!(!Command::Nop.is_read());
    assert_eq!(Command::WriteFull.name(), "WRITE_FULL");
    assert_eq!(Command::ClearHword.name(), "CLEAR_HWORD");
}

#[test]
fn register_map() {
    assert_eq!(Register::RangeSel.address(), 0x14);
    assert_eq!(Register::AlarmLTh.address(), 0x28);
    assert!(Register::DeviceId.is_read_only());
    assert!(!Register::RangeSel.is_read_only());
    assert_eq!(Register::AlarmHTh.name(), "ALARM_H_TH");
    for (i, a) in ALL_REGISTERS.iter().enumerate() {
        assert!(a.address() < 512);
        for b in &ALL_REGISTERS[i + 1..] {
            assert_ne!(a.address(), b.address());
        }
    }
    assert_eq!(DEVICE_ID, 0x0681);
    assert_eq!(RST_BIT, 0x8000);
    assert_eq!(RANGE_MASK, 0x000F);
}

#[test]
fn encode_command_frames() {
    assert_eq!(encode_command(Command::ReadHword, 0x24, 0x0000), [0b11001000, 0x24, 0x00, 0x00]);
    assert_eq!(encode_command(Command::WriteFull, 0x14, 0x0003), [0b11010000, 0x14, 0x00, 0x03]);
    assert_eq!(encode_command(Command::WriteLs, 0x1FF, 0xA55A), [0b11010101, 0xFF, 0xA5, 0x5A]);
    // Address bits above bit 8 do not reach the frame.
    assert_eq!(encode_command(Command::Nop, 0x3FF, 0x0000), [0b00000001, 0xFF, 0x00, 0x00]);
}

#[test]
fn frame_fields_can_be_read_back() {
    for cmd in ALL_COMMANDS {
        for addr in [0u16, 0x14, 0xFF, 0x100, 0x1FF] {
            for data in [0u16, 1, 0x8000, 0xBEEF, 0xFFFF] {
                let f = encode_command(cmd, addr, data);
                assert_eq!(f[0] >> 1, cmd.opcode());
                assert_eq!(((f[0] as u16 & 1) << 8) | f[1] as u16, addr);
                assert_eq!(((f[2] as u16) << 8) | f[3] as u16, data);
            }
        }
    }
}

#[test]
fn decode_and_extract() {
    assert_eq!(decode_response(&[0x00, 0x00, 0xAB, 0xCD]), 0x0000ABCD);
    assert_eq!(decode_response(&[0x12, 0x34, 0x56, 0x78]), 0x12345678);
    assert_eq!(extract_adc_data(0x7FFF_0000), 0x7FFF);
    assert_eq!(extract_register_data(0x0681_FFFF), 0x0681);
    // The upper half of a decoded reply is its first two bytes.
    let reply = [0xDE, 0xAD, 0xBE, 0xEF];
    assert_eq!(extract_adc_data(decode_response(&reply)), 0xDEAD);
    assert_eq!(extract_register_data(decode_response(&reply)), 0xDEAD);
}

#[test]
fn written_data_read_back_from_echo() {
    // The two data bytes of a WRITE_FULL frame, answered back by a read,
    // decode to the value written.
    for value in [0u16, 0x2000, 0x6000, 0x8000, 0xFFFF] {
        let f = encode_command(Command::WriteFull, Register::AlarmHTh.address(), value);
        let reply = [f[2], f[3], 0x00, 0x00];
        assert_eq!(extract_register_data(decode_response(&reply)), value);
    }
}
