//! The panel's command vocabulary: a closed set of protocol opcodes.

use vstd::prelude::*;

verus! {

/// A protocol opcode of the panel controller.
///
/// Each variant stands for one register or action of the controller and
/// maps to exactly one fixed byte, given by [`Command::address`].  The
/// set is closed: the panel accepts nothing outside it.
#[derive(Clone, Copy, PartialEq, Eq, Structural, Debug)]
pub enum Command {
    PanelSetting,
    PowerSetting,
    PowerOff,
    PowerOn,
    ChargePumpSetting,
    DeepSleep,
    DataStartTransmission1,
    DisplayRefresh,
    DataStartTransmission2,
    LutForVcom,
    LutWhiteToWhite,
    LutBlackToWhite,
    LutG0,
    LutG1,
    LutRedVcom,
    LutRed0,
    LutRed1,
    LutOpt,
    PllControl,
    TemperatureSensor,
    TemperatureSensorSelection,
    VcomAndDataIntervalSetting,
    GateAndSourceNonOverlapPeriod,
    ResolutionSetting,
    VcmDcSetting,
    UnknownInit,
    PowerSaving,
}

impl Command {
    /// The fixed byte of each opcode, as the controller documents it.
    pub open spec fn spec_address(self) -> u8 {
        match self {
            Command::PanelSetting => 0x00,
            Command::PowerSetting => 0x01,
            Command::PowerOff => 0x02,
            Command::PowerOn => 0x04,
            Command::ChargePumpSetting => 0x06,
            Command::DeepSleep => 0x07,
            Command::DataStartTransmission1 => 0x10,
            Command::DisplayRefresh => 0x12,
            Command::DataStartTransmission2 => 0x13,
            Command::LutForVcom => 0x20,
            Command::LutWhiteToWhite => 0x21,
            Command::LutBlackToWhite => 0x22,
            Command::LutG0 => 0x23,
            Command::LutG1 => 0x24,
            Command::LutRedVcom => 0x25,
            Command::LutRed0 => 0x26,
            Command::LutRed1 => 0x27,
            Command::LutOpt => 0x2a,
            Command::PllControl => 0x30,
            Command::TemperatureSensor => 0x40,
            Command::TemperatureSensorSelection => 0x41,
            Command::VcomAndDataIntervalSetting => 0x50,
            Command::GateAndSourceNonOverlapPeriod => 0x60,
            Command::ResolutionSetting => 0x61,
            Command::VcmDcSetting => 0x82,
            Command::UnknownInit => 0xd2,
            Command::PowerSaving => 0xe3,
        }
    }

    /// Returns the register address byte of this opcode.
    pub fn address(self) -> (r: u8)
        ensures
            r == self.spec_address(),
    {
        match self {
            Command::PanelSetting => 0x00,
            Command::PowerSetting => 0x01,
            Command::PowerOff => 0x02,
            Command::PowerOn => 0x04,
            Command::ChargePumpSetting => 0x06,
            Command::DeepSleep => 0x07,
            Command::DataStartTransmission1 => 0x10,
            Command::DisplayRefresh => 0x12,
            Command::DataStartTransmission2 => 0x13,
            Command::LutForVcom => 0x20,
            Command::LutWhiteToWhite => 0x21,
            Command::LutBlackToWhite => 0x22,
            Command::LutG0 => 0x23,
            Command::LutG1 => 0x24,
            Command::LutRedVcom => 0x25,
            Command::LutRed0 => 0x26,
            Command::LutRed1 => 0x27,
            Command::LutOpt => 0x2a,
            Command::PllControl => 0x30,
            Command::TemperatureSensor => 0x40,
            Command::TemperatureSensorSelection => 0x41,
            Command::VcomAndDataIntervalSetting => 0x50,
            Command::GateAndSourceNonOverlapPeriod => 0x60,
            Command::ResolutionSetting => 0x61,
            Command::VcmDcSetting => 0x82,
            Command::UnknownInit => 0xd2,
            Command::PowerSaving => 0xe3,
        }
    }
}

} // verus!
