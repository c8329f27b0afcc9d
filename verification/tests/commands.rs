//! Exhaustive checks of the command vocabulary and the color mapping.

use epd1in02::color::Color;
use epd1in02::command::Command;
use epd1in02::driver::DEFAULT_BACKGROUND_COLOR;

#[test]
fn every_opcode_has_its_documented_byte() {
    let table: [(Command, u8); 27] = [
        (Command::PanelSetting, 0x00),
        (Command::PowerSetting, 0x01),
        (Command::PowerOff, 0x02),
        (Command::PowerOn, 0x04),
        (Command::ChargePumpSetting, 0x06),
        (Command::DeepSleep, 0x07),
        (Command::DataStartTransmission1, 0x10),
        (Command::DisplayRefresh, 0x12),
        (Command::DataStartTransmission2, 0x13),
        (Command::LutForVcom, 0x20),
        (Command::LutWhiteToWhite, 0x21),
        (Command::LutBlackToWhite, 0x22),
        (Command::LutG0, 0x23),
        (Command::LutG1, 0x24),
        (Command::LutRedVcom, 0x25),
        (Command::LutRed0, 0x26),
        (Command::LutRed1, 0x27),
        (Command::LutOpt, 0x2a),
        (Command::PllControl, 0x30),
        (Command::TemperatureSensor, 0x40),
        (Command::TemperatureSensorSelection, 0x41),
        (Command::VcomAndDataIntervalSetting, 0x50),
        (Command::GateAndSourceNonOverlapPeriod, 0x60),
        (Command::ResolutionSetting, 0x61),
        (Command::VcmDcSetting, 0x82),
        (Command::UnknownInit, 0xd2),
        (Command::PowerSaving, 0xe3),
    ];
    for (command, expected) in table {
        assert_eq!(command.address(), expected);
    }
}

#[test]
fn color_byte_values() {
    assert_eq!(Color::Black.get_byte_value(), 0x00);
    assert_eq!(Color::White.get_byte_value(), 0xff);
}

#[test]
fn default_background_color_is_white() {
    assert_eq!(DEFAULT_BACKGROUND_COLOR, Color::White);
}
