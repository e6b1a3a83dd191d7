//! Where the peripherals are found, and what holds where nothing else is
//! said.

use vstd::prelude::*;
use vstd::string::StringExecFns;

verus! {

/// Where the volume buttons are found.
#[derive(Debug, PartialEq, Eq)]
pub struct ButtonsConfig {
    pub gpio_dev_path: String,
    pub volume_up_line: u32,
    pub volume_down_line: u32,
}

impl ButtonsConfig {
    /// The GPIO chip of the buttons where none is named.
    pub fn default_gpio_dev_path() -> (path: String)
        ensures
            path@ == "/dev/gpiochip0"@,
    {
        String::from_str("/dev/gpiochip0")
    }

    /// The line of the button that raises the volume where none is named.
    pub fn default_volume_up_line() -> (line: u32)
        ensures
            line == 23,
    {
        23
    }

    /// The line of the button that lowers the volume where none is named.
    pub fn default_volume_down_line() -> (line: u32)
        ensures
            line == 24,
    {
        24
    }
}

impl Default for ButtonsConfig {
    fn default() -> (config: Self)
        ensures
            config.gpio_dev_path@ == "/dev/gpiochip0"@,
            config.volume_up_line == 23,
            config.volume_down_line == 24,
    {
        Self {
            gpio_dev_path: Self::default_gpio_dev_path(),
            volume_up_line: Self::default_volume_up_line(),
            volume_down_line: Self::default_volume_down_line(),
        }
    }
}

/// Where the driver of the indicator is found.
#[derive(Debug, PartialEq, Eq)]
pub struct LedControllerConfig {
    pub i2c_dev_path: String,
}

impl LedControllerConfig {
    /// The I2C bus of the driver where none is named.
    pub fn default_i2c_dev_path() -> (path: String)
        ensures
            path@ == "/dev/i2c-1"@,
    {
        String::from_str("/dev/i2c-1")
    }
}

impl Default for LedControllerConfig {
    fn default() -> (config: Self)
        ensures
            config.i2c_dev_path@ == "/dev/i2c-1"@,
    {
        Self { i2c_dev_path: Self::default_i2c_dev_path() }
    }
}

/// Where the tag reader is found.
#[derive(Debug, PartialEq, Eq)]
pub struct NfcReaderConfig {
    pub spi_dev_path: String,
    pub gpio_dev_path: String,
    pub reset_pin_line: u32,
}

impl NfcReaderConfig {
    /// The SPI device of the reader where none is named.
    pub fn default_spi_dev_path() -> (path: String)
        ensures
            path@ == "/dev/spidev0.0"@,
    {
        String::from_str("/dev/spidev0.0")
    }

    /// The GPIO chip of the reset pin where none is named.
    pub fn default_gpio_dev_path() -> (path: String)
        ensures
            path@ == "/dev/gpiochip0"@,
    {
        String::from_str("/dev/gpiochip0")
    }

    /// The line of the reset pin where none is named.
    pub fn default_reset_pin_line() -> (line: u32)
        ensures
            line == 25,
    {
        25
    }
}

impl Default for NfcReaderConfig {
    fn default() -> (config: Self)
        ensures
            config.spi_dev_path@ == "/dev/spidev0.0"@,
            config.gpio_dev_path@ == "/dev/gpiochip0"@,
            config.reset_pin_line == 25,
    {
        Self {
            spi_dev_path: Self::default_spi_dev_path(),
            gpio_dev_path: Self::default_gpio_dev_path(),
            reset_pin_line: Self::default_reset_pin_line(),
        }
    }
}

} // verus!
