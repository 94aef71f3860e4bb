//! The opcodes of the display controller.

use vstd::prelude::*;

verus! {

/// A command of the display controller.
///
/// Every command is a single opcode byte, sent with the data/command line
/// low. Most commands are followed by parameter bytes sent as data.
#[allow(non_camel_case_types)]
#[derive(Clone, Copy, Debug, PartialEq, Eq, Structural)]
pub enum Command {
    /// Sets resolution source, LUT source, scan direction and soft reset.
    PANEL_SETTING,
    /// Selects the internal or external power rails and their levels.
    POWER_SETTING,
    /// Turns the rails off; the busy line signals completion.
    POWER_OFF,
    /// Sets the power-off sequence of the rails.
    POWER_OFF_SEQUENCE_SETTING,
    /// Turns the rails on; the busy line signals completion.
    POWER_ON,
    /// Starts a measurement while powering on.
    POWER_ON_MEASURE,
    /// Sets the soft start of the three booster phases.
    BOOSTER_SOFT_START,
    /// Enters deep sleep when followed by the check byte.
    DEEP_SLEEP,
    /// Starts the transfer of the previous frame.
    DATA_START_TRANSMISSION_1,
    /// Stops a data transfer.
    DATA_STOP,
    /// Refreshes the panel from the frame registers.
    DISPLAY_REFRESH,
    /// Starts the transfer of the next frame.
    DATA_START_TRANSMISSION_2,
    /// Loads the waveform table of the common electrode.
    LUT_FOR_VCOM,
    /// Loads the waveform table for pixels that stay white.
    LUT_WHITE_TO_WHITE,
    /// Loads the waveform table for pixels that turn from black to white.
    LUT_BLACK_TO_WHITE,
    /// Loads the waveform table for pixels that turn from white to black.
    LUT_WHITE_TO_BLACK,
    /// Loads the waveform table for pixels that stay black.
    LUT_BLACK_TO_BLACK,
    /// Sets the frame rate of the controller clock.
    PLL_CONTROL,
    /// Reads the temperature sensor.
    TEMPERATURE_SENSOR_COMMAND,
    /// Selects the internal or an external temperature sensor.
    TEMPERATURE_SENSOR_SELECTION,
    /// Writes to an external temperature sensor.
    TEMPERATURE_SENSOR_WRITE,
    /// Reads from an external temperature sensor.
    TEMPERATURE_SENSOR_READ,
    /// Sets the border output and the interval between common electrode and data.
    VCOM_AND_DATA_INTERVAL_SETTING,
    /// Configures the low power detection.
    LOW_POWER_DETECTION,
    /// Sets the non-overlap period of gate and source.
    TCON_SETTING,
    /// Sets the resolution of the panel.
    RESOLUTION_SETTING,
    /// Sets the first active gate and source line.
    GSST_SETTING,
    /// Reads the status flags.
    GET_STATUS,
    /// Measures the common electrode voltage.
    AUTO_MEASUREMENT_VCOM,
    /// Reads the measured common electrode voltage.
    READ_VCOM_VALUE,
    /// Sets the common electrode voltage.
    VCM_DC_SETTING,
    /// Sets the window of a partial update.
    PARTIAL_WINDOW,
    /// Enters partial mode.
    PARTIAL_IN,
    /// Leaves partial mode.
    PARTIAL_OUT,
    /// Enters the programming mode of the one-time programmable memory.
    PROGRAM_MODE,
    /// Programs the one-time programmable memory.
    ACTIVE_PROGRAMMING,
    /// Reads the one-time programmable memory.
    READ_OTP,
    /// Sets the power saving of the common electrode and the source.
    POWER_SAVING,
}

impl Command {
    /// The opcode byte of this command.
    pub open spec fn opcode(self) -> u8 {
        match self {
            Command::PANEL_SETTING => 0x00u8,
            Command::POWER_SETTING => 0x01u8,
            Command::POWER_OFF => 0x02u8,
            Command::POWER_OFF_SEQUENCE_SETTING => 0x03u8,
            Command::POWER_ON => 0x04u8,
            Command::POWER_ON_MEASURE => 0x05u8,
            Command::BOOSTER_SOFT_START => 0x06u8,
            Command::DEEP_SLEEP => 0x07u8,
            Command::DATA_START_TRANSMISSION_1 => 0x10u8,
            Command::DATA_STOP => 0x11u8,
            Command::DISPLAY_REFRESH => 0x12u8,
            Command::DATA_START_TRANSMISSION_2 => 0x13u8,
            Command::LUT_FOR_VCOM => 0x20u8,
            Command::LUT_WHITE_TO_WHITE => 0x21u8,
            Command::LUT_BLACK_TO_WHITE => 0x22u8,
            Command::LUT_WHITE_TO_BLACK => 0x23u8,
            Command::LUT_BLACK_TO_BLACK => 0x24u8,
            Command::PLL_CONTROL => 0x30u8,
            Command::TEMPERATURE_SENSOR_COMMAND => 0x40u8,
            Command::TEMPERATURE_SENSOR_SELECTION => 0x41u8,
            Command::TEMPERATURE_SENSOR_WRITE => 0x42u8,
            Command::TEMPERATURE_SENSOR_READ => 0x43u8,
            Command::VCOM_AND_DATA_INTERVAL_SETTING => 0x50u8,
            Command::LOW_POWER_DETECTION => 0x51u8,
            Command::TCON_SETTING => 0x60u8,
            Command::RESOLUTION_SETTING => 0x61u8,
            Command::GSST_SETTING => 0x65u8,
            Command::GET_STATUS => 0x71u8,
            Command::AUTO_MEASUREMENT_VCOM => 0x80u8,
            Command::READ_VCOM_VALUE => 0x81u8,
            Command::VCM_DC_SETTING => 0x82u8,
            Command::PARTIAL_WINDOW => 0x90u8,
            Command::PARTIAL_IN => 0x91u8,
            Command::PARTIAL_OUT => 0x92u8,
            Command::PROGRAM_MODE => 0xA0u8,
            Command::ACTIVE_PROGRAMMING => 0xA1u8,
            Command::READ_OTP => 0xA2u8,
            Command::POWER_SAVING => 0xE3u8,
        }
    }

    /// Returns the opcode byte that is sent for this command.
    pub fn address(self) -> (byte: u8)
        ensures
            byte == self.opcode(),
    {
        match self {
            Command::PANEL_SETTING => 0x00u8,
            Command::POWER_SETTING => 0x01u8,
            Command::POWER_OFF => 0x02u8,
            Command::POWER_OFF_SEQUENCE_SETTING => 0x03u8,
            Command::POWER_ON => 0x04u8,
            Command::POWER_ON_MEASURE => 0x05u8,
            Command::BOOSTER_SOFT_START => 0x06u8,
            Command::DEEP_SLEEP => 0x07u8,
            Command::DATA_START_TRANSMISSION_1 => 0x10u8,
            Command::DATA_STOP => 0x11u8,
            Command::DISPLAY_REFRESH => 0x12u8,
            Command::DATA_START_TRANSMISSION_2 => 0x13u8,
            Command::LUT_FOR_VCOM => 0x20u8,
            Command::LUT_WHITE_TO_WHITE => 0x21u8,
            Command::LUT_BLACK_TO_WHITE => 0x22u8,
            Command::LUT_WHITE_TO_BLACK => 0x23u8,
            Command::LUT_BLACK_TO_BLACK => 0x24u8,
            Command::PLL_CONTROL => 0x30u8,
            Command::TEMPERATURE_SENSOR_COMMAND => 0x40u8,
            Command::TEMPERATURE_SENSOR_SELECTION => 0x41u8,
            Command::TEMPERATURE_SENSOR_WRITE => 0x42u8,
            Command::TEMPERATURE_SENSOR_READ => 0x43u8,
            Command::VCOM_AND_DATA_INTERVAL_SETTING => 0x50u8,
            Command::LOW_POWER_DETECTION => 0x51u8,
            Command::TCON_SETTING => 0x60u8,
            Command::RESOLUTION_SETTING => 0x61u8,
            Command::GSST_SETTING => 0x65u8,
            Command::GET_STATUS => 0x71u8,
            Command::AUTO_MEASUREMENT_VCOM => 0x80u8,
            Command::READ_VCOM_VALUE => 0x81u8,
            Command::VCM_DC_SETTING => 0x82u8,
            Command::PARTIAL_WINDOW => 0x90u8,
            Command::PARTIAL_IN => 0x91u8,
            Command::PARTIAL_OUT => 0x92u8,
            Command::PROGRAM_MODE => 0xA0u8,
            Command::ACTIVE_PROGRAMMING => 0xA1u8,
            Command::READ_OTP => 0xA2u8,
            Command::POWER_SAVING => 0xE3u8,
        }
    }

    /// No two commands share an opcode.
    pub proof fn lemma_opcode_injective(a: Command, b: Command)
        requires
            a.opcode() == b.opcode(),
        ensures
            a == b,
    {
    }
}

} // verus!
