use bloop_box::hardware::config::ButtonsConfig;
use bloop_box::hardware::config::LedControllerConfig;
use bloop_box::hardware::config::NfcReaderConfig;
use bloop_box::hardware::led::Error;
use bloop_box::hardware::nfc::NfcReaderError;

#[test]
fn peripherals_have_their_defaults() {
    assert_eq!(
        ButtonsConfig::default(),
        ButtonsConfig {
            gpio_dev_path: "/dev/gpiochip0".to_string(),
            volume_up_line: 23,
            volume_down_line: 24,
        }
    );
    assert_eq!(
        LedControllerConfig::default(),
        LedControllerConfig { i2c_dev_path: "/dev/i2c-1".to_string() }
    );
    assert_eq!(
        NfcReaderConfig::default(),
        NfcReaderConfig {
            spi_dev_path: "/dev/spidev0.0".to_string(),
            gpio_dev_path: "/dev/gpiochip0".to_string(),
            reset_pin_line: 25,
        }
    );
    assert_eq!(NfcReaderConfig::default_spi_dev_path(), "/dev/spidev0.0");
    assert_eq!(ButtonsConfig::default_volume_up_line(), 23);
}

#[test]
fn errors_of_the_handles_have_their_words() {
    assert_eq!(Error::Disconnected.message(), "LED controller task is no longer running");
    assert_eq!(NfcReaderError::Disconnected.message(), "NFC reader task is no longer running");
}
