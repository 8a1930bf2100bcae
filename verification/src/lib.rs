//! Board support logic for the M5Stack StickS3 / StickS3 Plus.
//!
//! Every peripheral of the board is driven by a sequence of bus transfers,
//! pin levels and delays. This crate holds the decisions behind those
//! transfers as verified code: what bytes go to the ST7789 panel, which
//! registers the BMI270, ES8311, NS4168 and M5PM1 chips receive and in which
//! order, how button edges are detected, how audio samples are produced and
//! measured, and how the provisioning, Wi-Fi and deep-sleep flows react to
//! what the hardware answers. The code that touches the hardware performs the
//! requests that these functions return and hands the replies back.

use vstd::prelude::*;

pub mod audio;
pub mod battery;
pub mod buttons;
pub mod dashboard;
pub mod display;
pub mod es8311;
pub mod framebuffer;
pub mod i2c_bus;
pub mod imu;
pub mod led;
pub mod mic;
pub mod nvs;
pub mod pmic;
pub mod provision;
pub mod sleep;
pub mod speaker;
pub mod wifi;

verus! {

/// Screen width in landscape orientation.
pub const WIDTH: u32 = 240;

/// Screen height in landscape orientation.
pub const HEIGHT: u32 = 135;

/// Column offset of the 135x240 panel inside the 240x320 ST7789 memory.
pub const OFFSET_X: u16 = 52;

/// Row offset of the 135x240 panel inside the 240x320 ST7789 memory.
pub const OFFSET_Y: u16 = 40;

// Display, ST7789V on SPI2.
pub const PIN_LCD_MOSI: u8 = 39;
pub const PIN_LCD_SCLK: u8 = 40;
pub const PIN_LCD_CS: u8 = 41;
pub const PIN_LCD_DC: u8 = 45;
pub const PIN_LCD_RST: u8 = 21;
pub const PIN_LCD_BL: u8 = 38;

// Buttons.
pub const PIN_BTN_A: u8 = 11;
pub const PIN_BTN_B: u8 = 12;

// I2C bus shared by the power manager and the audio codec.
pub const PIN_I2C_SDA: u8 = 47;
pub const PIN_I2C_SCL: u8 = 48;

// I2S0 speaker output.
pub const PIN_SPK_MCK: u8 = 18;
pub const PIN_SPK_BCLK: u8 = 17;
pub const PIN_SPK_WS: u8 = 15;
pub const PIN_SPK_DATA: u8 = 14;

// I2S1 microphone input (shares MCK, BCLK and WS with the speaker).
pub const PIN_MIC_DATA: u8 = 16;

// Built-in LED.
pub const PIN_LED: u8 = 10;

// Battery ADC (ADC1 channel 7).
pub const PIN_BAT_ADC: u8 = 8;

} // verus!
