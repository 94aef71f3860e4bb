use epd_waveshare::color::Color;
use epd_waveshare::command::Command;
use epd_waveshare::refresh::RefreshLUT;

#[test]
fn color_byte_values() {
    assert_eq!(Color::White.get_byte_value(), 0xff);
    assert_eq!(Color::Black.get_byte_value(), 0x00);
}

#[test]
fn color_bit_values() {
    assert_eq!(Color::White.get_bit_value(), 1);
    assert_eq!(Color::Black.get_bit_value(), 0);
}

#[test]
fn color_inverse() {
    assert_eq!(Color::White.inverse(), Color::Black);
    assert_eq!(Color::Black.inverse(), Color::White);
    assert_eq!(Color::Black.inverse().inverse(), Color::Black);
}

#[test]
fn refresh_defaults_to_full() {
    assert_eq!(RefreshLUT::default(), RefreshLUT::FULL);
}

#[test]
fn command_addresses() {
    assert_eq!(Command::PANEL_SETTING.address(), 0x00);
    assert_eq!(Command::POWER_SETTING.address(), 0x01);
    assert_eq!(Command::POWER_OFF.address(), 0x02);
    assert_eq!(Command::POWER_OFF_SEQUENCE_SETTING.address(), 0x03);
    assert_eq!(Command::POWER_ON.address(), 0x04);
    assert_eq!(Command::POWER_ON_MEASURE.address(), 0x05);
    assert_eq!(Command::BOOSTER_SOFT_START.address(), 0x06);
    assert_eq!(Command::DEEP_SLEEP.address(), 0x07);
    assert_eq!(Command::DATA_START_TRANSMISSION_1.address(), 0x10);
    assert_eq!(Command::DATA_STOP.address(), 0x11);
    assert_eq!(Command::DISPLAY_REFRESH.address(), 0x12);
    assert_eq!(Command::DATA_START_TRANSMISSION_2.address(), 0x13);
    assert_eq!(Command::LUT_FOR_VCOM.address(), 0x20);
    assert_eq!(Command::LUT_WHITE_TO_WHITE.address(), 0x21);
    assert_eq!(Command::LUT_BLACK_TO_WHITE.address(), 0x22);
    assert_eq!(Command::LUT_WHITE_TO_BLACK.address(), 0x23);
    assert_eq!(Command::LUT_BLACK_TO_BLACK.address(), 0x24);
    assert_eq!(Command::PLL_CONTROL.address(), 0x30);
    assert_eq!(Command::TEMPERATURE_SENSOR_COMMAND.address(), 0x40);
    assert_eq!(Command::TEMPERATURE_SENSOR_SELECTION.address(), 0x41);
    assert_eq!(Command::TEMPERATURE_SENSOR_WRITE.address(), 0x42);
    assert_eq!(Command::TEMPERATURE_SENSOR_READ.address(), 0x43);
    assert_eq!(Command::VCOM_AND_DATA_INTERVAL_SETTING.address(), 0x50);
    assert_eq!(Command::LOW_POWER_DETECTION.address(), 0x51);
    assert_eq!(Command::TCON_SETTING.address(), 0x60);
    assert_eq!(Command::RESOLUTION_SETTING.address(), 0x61);
    assert_eq!(Command::GSST_SETTING.address(), 0x65);
    assert_eq!(Command::GET_STATUS.address(), 0x71);
    assert_eq!(Command::AUTO_MEASUREMENT_VCOM.address(), 0x80);
    assert_eq!(Command::READ_VCOM_VALUE.address(), 0x81);
    assert_eq!(Command::VCM_DC_SETTING.address(), 0x82);
    assert_eq!(Command::PARTIAL_WINDOW.address(), 0x90);
    assert_eq!(Command::PARTIAL_IN.address(), 0x91);
    assert_eq!(Command::PARTIAL_OUT.address(), 0x92);
    assert_eq!(Command::PROGRAM_MODE.address(), 0xA0);
    assert_eq!(Command::ACTIVE_PROGRAMMING.address(), 0xA1);
    assert_eq!(Command::READ_OTP.address(), 0xA2);
    assert_eq!(Command::POWER_SAVING.address(), 0xE3);
}
