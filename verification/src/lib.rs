//! Output device logic for GPIO components such as LEDs, buzzers, PWM LEDs and servos.
//!
//! Each device is modelled by the state that decides what it drives onto its pins: the
//! polarity (active high or low), the blink count, the servo pulse widths. The functions
//! here compute the levels and pulse settings to drive and the steps of the background
//! blinking loops; performing them on the hardware is the caller's part.
pub mod blink;
pub mod digital;
pub mod output_device;
pub mod pwm;
pub mod rgb_led;
pub mod servo;

pub use blink::{BlinkLoop, BlinkStep, Frame, FrameStep, PwmBlinkLoop};
pub use digital::{Buzzer, DigitalOutputDevice, Drive, LED};
pub use output_device::OutputDevice;
pub use pwm::{PwmBlink, PWMLED, PWMOutputDevice, RGBPWMLED};
pub use rgb_led::{Channel, RgbDrive, RGBLED};
pub use servo::{PwmSetting, Servo, ServoError};
