//! Output devices driven by software pulse-width modulation: the generic
//! `PWMOutputDevice`, `PWMLED` and the full-colour `RGBPWMLED`.
//!
//! Duty cycles are fractions between 0.0 and 1.0; what is computed with them is the
//! caller's part. This module holds the polarity, the blink count, and the layout and
//! loop of the blink and pulse sequences.
use vstd::prelude::*;

use crate::blink::{blink_frames, fade_frame_count, blink_sequence, Frame, PwmBlinkLoop};
use crate::output_device::OutputDevice;

verus! {

/// What a PWM blink or pulse runs in the background: the frame sequence of one pass, the
/// loop over it, and the polarity it applies the frame values with (read once, when the
/// blink starts).
#[derive(Debug)]
pub struct PwmBlink {
    pub frames: Vec<Frame>,
    pub looper: PwmBlinkLoop,
    pub active_high: bool,
}

/// A generic output device driven by software PWM, 100 Hz, duty cycle from 0.0 (constant
/// low) to 1.0 (constant high).
#[derive(Clone, Copy, Debug)]
pub struct PWMOutputDevice {
    device: OutputDevice,
    blink_count: Option<i32>,
    active_state: bool,
    inactive_state: bool,
}

impl PWMOutputDevice {
    #[verifier::type_invariant]
    spec fn polarity_consistent(self) -> bool {
        &&& self.inactive_state == !self.active_state
        &&& self.device.active_high_spec() == self.active_state
    }

    /// The underlying output device: the pin, and the polarity its reads go by (always the
    /// device's own).
    pub closed spec fn device_spec(self) -> OutputDevice {
        self.device
    }

    /// The number of passes a `blink` or `pulse` asks for (`None`: endless).
    pub closed spec fn blink_count_spec(self) -> Option<i32> {
        self.blink_count
    }

    /// Whether duty cycles apply as given (`true`) or complemented (`false`).
    pub closed spec fn active_high_spec(self) -> bool {
        self.active_state
    }

    /// What `blink` and `pulse` start, for fades of the given milliseconds.
    pub open spec fn is_blink_of(self, b: PwmBlink, fade_in_millis: u32, fade_out_millis: u32) -> bool {
        &&& b.frames@ == blink_frames(fade_frame_count(fade_in_millis), fade_frame_count(fade_out_millis))
        &&& b.looper.remaining_spec() == self.blink_count_spec()
        &&& b.looper.position_spec() == 0
        &&& b.looper.frames_spec() == b.frames@.len()
        &&& b.active_high == self.active_high_spec()
    }

    /// A PWM device on `pin`, active high, blinking endlessly.
    pub fn new(pin: u8) -> (d: PWMOutputDevice)
        ensures
            d.device_spec().pin_spec() == pin,
            d.device_spec().active_high_spec(),
            d.active_high_spec(),
            d.blink_count_spec() is None,
    {
        PWMOutputDevice {
            device: OutputDevice::new(pin),
            blink_count: None,
            active_state: true,
            inactive_state: false,
        }
    }

    /// The underlying output device.
    pub fn device(&self) -> (device: &OutputDevice)
        ensures
            *device == self.device_spec(),
    {
        &self.device
    }

    /// The GPIO pin number the device is attached to.
    pub fn pin(&self) -> (pin: u8)
        ensures
            pin == self.device_spec().pin_spec(),
    {
        self.device.pin()
    }

    /// Sets the number of times the next `blink` or `pulse` runs its sequence.
    pub fn set_blink_count(&mut self, n: i32)
        ensures
            final(self).blink_count_spec() == Some(n),
            final(self).device_spec() == old(self).device_spec(),
            final(self).active_high_spec() == old(self).active_high_spec(),
    {
        proof {
            use_type_invariant(&*self);
        }
        self.blink_count = Some(n)
    }

    /// Makes duty cycles apply as given (`true`) or complemented (`false`).
    pub fn set_active_high(&mut self, value: bool)
        ensures
            final(self).active_high_spec() == value,
            final(self).device_spec().active_high_spec() == value,
            final(self).device_spec().pin_spec() == old(self).device_spec().pin_spec(),
            final(self).blink_count_spec() == old(self).blink_count_spec(),
    {
        let mut device = self.device;
        device.set_active_high(value);
        let blink_count = self.blink_count;
        if value {
            *self = PWMOutputDevice { device, blink_count, active_state: true, inactive_state: false };
        } else {
            *self = PWMOutputDevice { device, blink_count, active_state: false, inactive_state: true };
        }
    }

    /// Whether duty cycles apply as given (`true`) or complemented (`false`).
    pub fn active_high(&self) -> (active_high: bool)
        ensures
            active_high == self.active_high_spec(),
    {
        self.active_state
    }

    /// Whether the device is on, given the level read from its pin: a high level means on
    /// exactly when the device is active high.
    pub fn is_active(&self, level: bool) -> (active: bool)
        ensures
            active == (level == self.active_high_spec()),
    {
        proof {
            use_type_invariant(self);
        }
        self.device.is_active(level)
    }

    /// Starts blinking in the background: one pass fades in over `fade_in_millis`
    /// milliseconds, stays on, fades out over `fade_out_millis`, stays off; `blink_count`
    /// passes (endless when unset).
    pub fn blink(&self, fade_in_millis: u32, fade_out_millis: u32) -> (b: PwmBlink)
        ensures
            self.is_blink_of(b, fade_in_millis, fade_out_millis),
    {
        self.blinker(fade_in_millis, fade_out_millis, self.blink_count)
    }

    /// Starts fading in and out in the background (a blink with no time spent fully on
    /// or fully off).
    pub fn pulse(&self, fade_in_millis: u32, fade_out_millis: u32) -> (b: PwmBlink)
        ensures
            self.is_blink_of(b, fade_in_millis, fade_out_millis),
    {
        self.blink(fade_in_millis, fade_out_millis)
    }

    fn blinker(&self, fade_in_millis: u32, fade_out_millis: u32, n: Option<i32>) -> (b: PwmBlink)
        ensures
            b.frames@ == blink_frames(fade_frame_count(fade_in_millis), fade_frame_count(fade_out_millis)),
            b.looper.remaining_spec() == n,
            b.looper.position_spec() == 0,
            b.looper.frames_spec() == b.frames@.len(),
            b.active_high == self.active_high_spec(),
    {
        let frames = blink_sequence(fade_in_millis, fade_out_millis);
        let looper = PwmBlinkLoop::new(n, frames.len());
        PwmBlink { frames, looper, active_high: self.active_high() }
    }
}

/// A light emitting diode with variable brightness, driven by software PWM.
#[derive(Clone, Copy, Debug)]
pub struct PWMLED(PWMOutputDevice);

impl PWMLED {
    /// The PWM device driving the LED.
    pub closed spec fn pwm_spec(self) -> PWMOutputDevice {
        self.0
    }

    /// A PWM LED on `pin`, active high, blinking endlessly.
    pub fn new(pin: u8) -> (led: PWMLED)
        ensures
            led.pwm_spec().device_spec().pin_spec() == pin,
            led.pwm_spec().device_spec().active_high_spec(),
            led.pwm_spec().active_high_spec(),
            led.pwm_spec().blink_count_spec() is None,
    {
        PWMLED(PWMOutputDevice::new(pin))
    }

    /// The PWM device driving the LED.
    pub fn pwm(&self) -> (pwm: &PWMOutputDevice)
        ensures
            *pwm == self.pwm_spec(),
    {
        &self.0
    }

    /// Starts blinking in the background (see `PWMOutputDevice::blink`).
    pub fn blink(&self, fade_in_millis: u32, fade_out_millis: u32) -> (b: PwmBlink)
        ensures
            self.pwm_spec().is_blink_of(b, fade_in_millis, fade_out_millis),
    {
        self.0.blink(fade_in_millis, fade_out_millis)
    }

    /// Starts fading in and out in the background (see `PWMOutputDevice::pulse`).
    pub fn pulse(&self, fade_in_millis: u32, fade_out_millis: u32) -> (b: PwmBlink)
        ensures
            self.pwm_spec().is_blink_of(b, fade_in_millis, fade_out_millis),
    {
        self.0.pulse(fade_in_millis, fade_out_millis)
    }

    /// Sets the number of times the next `blink` or `pulse` runs its sequence.
    pub fn set_blink_count(&mut self, n: i32)
        ensures
            final(self).pwm_spec().blink_count_spec() == Some(n),
            final(self).pwm_spec().device_spec() == old(self).pwm_spec().device_spec(),
            final(self).pwm_spec().active_high_spec() == old(self).pwm_spec().active_high_spec(),
    {
        self.0.set_blink_count(n)
    }
}

/// A full-colour LED made of three PWM LEDs sharing one polarity.
pub struct RGBPWMLED {
    red: PWMLED,
    green: PWMLED,
    blue: PWMLED,
}

impl RGBPWMLED {
    #[verifier::type_invariant]
    spec fn one_polarity(self) -> bool {
        &&& self.red.0.active_high_spec() == self.green.0.active_high_spec()
        &&& self.green.0.active_high_spec() == self.blue.0.active_high_spec()
    }

    /// Whether duty cycles apply as given (`true`) or complemented (`false`), for all three
    /// LEDs.
    pub closed spec fn active_high_spec(self) -> bool {
        self.red.0.active_high_spec()
    }

    /// The three LEDs share one polarity, `active_high_spec()`.
    pub open spec fn shares_polarity(self) -> bool {
        &&& self.red_spec().pwm_spec().active_high_spec() == self.active_high_spec()
        &&& self.green_spec().pwm_spec().active_high_spec() == self.active_high_spec()
        &&& self.blue_spec().pwm_spec().active_high_spec() == self.active_high_spec()
    }

    /// The red LED.
    pub closed spec fn red_spec(self) -> PWMLED {
        self.red
    }

    /// The green LED.
    pub closed spec fn green_spec(self) -> PWMLED {
        self.green
    }

    /// The blue LED.
    pub closed spec fn blue_spec(self) -> PWMLED {
        self.blue
    }

    /// Whether any of the three LEDs is on, given the levels read from their pins.
    pub open spec fn any_on(self, red: bool, green: bool, blue: bool) -> bool {
        ||| red == self.red_spec().pwm_spec().active_high_spec()
        ||| green == self.green_spec().pwm_spec().active_high_spec()
        ||| blue == self.blue_spec().pwm_spec().active_high_spec()
    }

    /// An RGB PWM LED on the given pins, with the given polarity for all three LEDs.
    pub fn new(red: u8, green: u8, blue: u8, active_high: bool) -> (led: RGBPWMLED)
        ensures
            led.shares_polarity() && led.active_high_spec() == active_high,
            led.red_spec().pwm_spec().device_spec().pin_spec() == red,
            led.green_spec().pwm_spec().device_spec().pin_spec() == green,
            led.blue_spec().pwm_spec().device_spec().pin_spec() == blue,
            led.red_spec().pwm_spec().active_high_spec() == active_high,
            led.green_spec().pwm_spec().active_high_spec() == active_high,
            led.blue_spec().pwm_spec().active_high_spec() == active_high,
            led.red_spec().pwm_spec().blink_count_spec() is None,
            led.green_spec().pwm_spec().blink_count_spec() is None,
            led.blue_spec().pwm_spec().blink_count_spec() is None,
    {
        let mut red = PWMLED::new(red);
        let mut green = PWMLED::new(green);
        let mut blue = PWMLED::new(blue);
        red.0.set_active_high(active_high);
        green.0.set_active_high(active_high);
        blue.0.set_active_high(active_high);
        RGBPWMLED { red, green, blue }
    }

    /// The red LED.
    pub fn red(&self) -> (led: &PWMLED)
        ensures
            *led == self.red_spec(),
    {
        &self.red
    }

    /// The green LED.
    pub fn green(&self) -> (led: &PWMLED)
        ensures
            *led == self.green_spec(),
    {
        &self.green
    }

    /// The blue LED.
    pub fn blue(&self) -> (led: &PWMLED)
        ensures
            *led == self.blue_spec(),
    {
        &self.blue
    }

    /// Starts blinking the three LEDs in the background, each between its component of
    /// the on colour and of the off colour (see `PWMOutputDevice::blink`).
    pub fn blink(&self, fade_in_millis: u32, fade_out_millis: u32) -> (b: (PwmBlink, PwmBlink, PwmBlink))
        ensures
            self.shares_polarity(),
            self.red_spec().pwm_spec().is_blink_of(b.0, fade_in_millis, fade_out_millis),
            self.green_spec().pwm_spec().is_blink_of(b.1, fade_in_millis, fade_out_millis),
            self.blue_spec().pwm_spec().is_blink_of(b.2, fade_in_millis, fade_out_millis),
    {
        proof {
            use_type_invariant(self);
        }
        (
            self.red.blink(fade_in_millis, fade_out_millis),
            self.green.blink(fade_in_millis, fade_out_millis),
            self.blue.blink(fade_in_millis, fade_out_millis),
        )
    }

    /// Starts fading the three LEDs in and out in the background (see
    /// `PWMOutputDevice::pulse`).
    pub fn pulse(&self, fade_in_millis: u32, fade_out_millis: u32) -> (b: (PwmBlink, PwmBlink, PwmBlink))
        ensures
            self.shares_polarity(),
            self.red_spec().pwm_spec().is_blink_of(b.0, fade_in_millis, fade_out_millis),
            self.green_spec().pwm_spec().is_blink_of(b.1, fade_in_millis, fade_out_millis),
            self.blue_spec().pwm_spec().is_blink_of(b.2, fade_in_millis, fade_out_millis),
    {
        proof {
            use_type_invariant(self);
        }
        (
            self.red.pulse(fade_in_millis, fade_out_millis),
            self.green.pulse(fade_in_millis, fade_out_millis),
            self.blue.pulse(fade_in_millis, fade_out_millis),
        )
    }

    /// Sets the number of times the next `blink` or `pulse` runs, for all three LEDs.
    pub fn set_blink_count(&mut self, n: i32)
        ensures
            final(self).shares_polarity(),
            final(self).red_spec().pwm_spec().blink_count_spec() == Some(n),
            final(self).green_spec().pwm_spec().blink_count_spec() == Some(n),
            final(self).blue_spec().pwm_spec().blink_count_spec() == Some(n),
            final(self).red_spec().pwm_spec().device_spec() == old(self).red_spec().pwm_spec().device_spec(),
            final(self).green_spec().pwm_spec().device_spec() == old(self).green_spec().pwm_spec().device_spec(),
            final(self).blue_spec().pwm_spec().device_spec() == old(self).blue_spec().pwm_spec().device_spec(),
            final(self).red_spec().pwm_spec().active_high_spec() == old(self).red_spec().pwm_spec().active_high_spec(),
            final(self).green_spec().pwm_spec().active_high_spec() == old(self).green_spec().pwm_spec().active_high_spec(),
            final(self).blue_spec().pwm_spec().active_high_spec() == old(self).blue_spec().pwm_spec().active_high_spec(),
    {
        proof {
            use_type_invariant(&*self);
        }
        let (mut red, mut green, mut blue) = (self.red, self.green, self.blue);
        red.0.set_blink_count(n);
        green.0.set_blink_count(n);
        blue.0.set_blink_count(n);
        *self = RGBPWMLED { red, green, blue };
    }

    /// Whether any of red, green or blue is on, given the levels read from their pins.
    pub fn is_active(&self, red: bool, green: bool, blue: bool) -> (active: bool)
        ensures
            self.shares_polarity(),
            active == self.any_on(red, green, blue),
    {
        proof {
            use_type_invariant(self);
        }
        self.red.0.is_active(red) || self.green.0.is_active(green) || self.blue.0.is_active(blue)
    }

    /// Whether toggling turns the LED on (`true`) or off (`false`), given the levels read
    /// from its pins: off if any colour is on, on otherwise.
    pub fn toggle(&self, red: bool, green: bool, blue: bool) -> (turn_on: bool)
        ensures
            self.shares_polarity(),
            turn_on == !self.any_on(red, green, blue),
    {
        proof {
            use_type_invariant(self);
        }
        !self.is_active(red, green, blue)
    }
}

/// A blink or pulse is fully determined by the device and the fade lengths: two plans that
/// fit the same device and fades have the same frames, loop and polarity. So `pulse` starts
/// exactly what `blink` does, and a `PWMLED` or an `RGBPWMLED` channel starts exactly what
/// its PWM device's own `blink` would.
pub proof fn lemma_blink_plan_determined(
    device: PWMOutputDevice,
    first: PwmBlink,
    second: PwmBlink,
    fade_in_millis: u32,
    fade_out_millis: u32,
)
    requires
        device.is_blink_of(first, fade_in_millis, fade_out_millis),
        device.is_blink_of(second, fade_in_millis, fade_out_millis),
    ensures
        first.frames@ == second.frames@,
        first.looper.remaining_spec() == second.looper.remaining_spec(),
        first.looper.position_spec() == second.looper.position_spec(),
        first.looper.frames_spec() == second.looper.frames_spec(),
        first.active_high == second.active_high,
{
}

/// The RGB PWM LED is on exactly when at least one of its LEDs is: a pin reads as on when
/// its level is the channel's "on" level (high when active high), each of red, green and
/// blue on by itself makes the LED on, and with all three off it is off.
pub proof fn lemma_rgb_pwm_on_when_any_channel_on(
    led: RGBPWMLED,
    red: bool,
    green: bool,
    blue: bool,
)
    ensures
        red == led.red_spec().pwm_spec().active_high_spec() ==> led.any_on(red, green, blue),
        green == led.green_spec().pwm_spec().active_high_spec() ==> led.any_on(red, green, blue),
        blue == led.blue_spec().pwm_spec().active_high_spec() ==> led.any_on(red, green, blue),
        red != led.red_spec().pwm_spec().active_high_spec() && green
            != led.green_spec().pwm_spec().active_high_spec() && blue
            != led.blue_spec().pwm_spec().active_high_spec() ==> !led.any_on(red, green, blue),
        led.shares_polarity() && led.active_high_spec() ==> (led.any_on(red, green, blue) <==> (red
            || green || blue)),
{
}

} // verus!
