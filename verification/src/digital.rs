//! Digital output devices with on/off behaviour and background blinking: the generic
//! `DigitalOutputDevice`, `LED` and `Buzzer`.
use vstd::prelude::*;

use crate::blink::BlinkLoop;
use crate::output_device::OutputDevice;

verus! {

/// What an operation asks of a single-pin device's hardware, in this order: clear the
/// shared "blinking" flag (which ends a background blinker) when `halt_blinking`, then
/// drive the pin to each level of `levels` in turn (high = `true`).
#[derive(Debug)]
pub struct Drive {
    pub halt_blinking: bool,
    pub levels: Vec<bool>,
}

/// The drive of `stop`: clear the flag and pull the pin low, whatever the polarity.
pub open spec fn is_stop_drive(d: Drive) -> bool {
    d.halt_blinking && d.levels@ == seq![false]
}

/// The drive of `stop` followed by driving the pin to `level`.
pub open spec fn is_stop_then(d: Drive, level: bool) -> bool {
    d.halt_blinking && d.levels@ == seq![false, level]
}

fn stop_drive() -> (d: Drive)
    ensures
        is_stop_drive(d),
{
    let mut levels: Vec<bool> = Vec::new();
    levels.push(false);
    Drive { halt_blinking: true, levels }
}

fn stop_then(level: bool) -> (d: Drive)
    ensures
        is_stop_then(d, level),
{
    let mut levels: Vec<bool> = Vec::new();
    levels.push(false);
    levels.push(level);
    assert(levels@ =~= seq![false, level]);
    Drive { halt_blinking: true, levels }
}

fn only(level: bool) -> (d: Drive)
    ensures
        !d.halt_blinking,
        d.levels@ == seq![level],
{
    let mut levels: Vec<bool> = Vec::new();
    levels.push(level);
    Drive { halt_blinking: false, levels }
}

/// A generic output device with on/off behaviour that can blink in the background.
pub struct DigitalOutputDevice {
    device: OutputDevice,
    blink_count: Option<i32>,
}

impl DigitalOutputDevice {
    /// The underlying output device (pin and polarity).
    pub closed spec fn device_spec(self) -> OutputDevice {
        self.device
    }

    /// The number of blinks a `blink` asks for (`None`: until halted).
    pub closed spec fn blink_count_spec(self) -> Option<i32> {
        self.blink_count
    }

    /// A device on `pin`, active high, blinking until halted.
    pub fn new(pin: u8) -> (d: DigitalOutputDevice)
        ensures
            d.device_spec().pin_spec() == pin,
            d.device_spec().active_high_spec(),
            d.blink_count_spec() is None,
    {
        DigitalOutputDevice { device: OutputDevice::new(pin), blink_count: None }
    }

    /// The underlying output device, as the background blinker uses it.
    pub fn device(&self) -> (device: &OutputDevice)
        ensures
            *device == self.device_spec(),
    {
        &self.device
    }

    /// Whether the device is on, given the level read from its pin.
    pub fn is_active(&self, level: bool) -> (active: bool)
        ensures
            active == self.device_spec().value_of(level),
    {
        self.device.is_active(level)
    }

    /// Whether the device is on, given the level read from its pin.
    pub fn value(&self, level: bool) -> (on: bool)
        ensures
            on == self.device_spec().value_of(level),
    {
        self.device.value(level)
    }

    /// Turns the device on: stops any blinking (pulling the pin low), then drives the "on" level.
    pub fn on(&self) -> (d: Drive)
        ensures
            is_stop_then(d, self.device_spec().level_for(true)),
            self.device_spec().value_of(d.levels@.last()),
    {
        stop_then(self.device.on())
    }

    /// Turns the device off: stops any blinking (pulling the pin low), then drives the "off" level.
    pub fn off(&self) -> (d: Drive)
        ensures
            is_stop_then(d, self.device_spec().level_for(false)),
            !self.device_spec().value_of(d.levels@.last()),
    {
        stop_then(self.device.off())
    }

    /// Reverses the device's state, given the level read from its pin; a background
    /// blinker is left running.
    pub fn toggle(&self, level: bool) -> (d: Drive)
        ensures
            !d.halt_blinking,
            d.levels@ == seq![self.device_spec().level_for(!self.device_spec().value_of(level))],
    {
        only(self.device.toggle(level))
    }

    /// Ends any background blinking and pulls the pin low.
    pub fn stop(&self) -> (d: Drive)
        ensures
            is_stop_drive(d),
    {
        stop_drive()
    }

    /// Whether a high pin level means "on".
    pub fn active_high(&self) -> (active_high: bool)
        ensures
            active_high == self.device_spec().active_high_spec(),
    {
        self.device.active_high()
    }

    /// Makes a high pin level mean "on" (`true`) or "off" (`false`).
    pub fn set_active_high(&mut self, value: bool)
        ensures
            final(self).device_spec().active_high_spec() == value,
            final(self).device_spec().pin_spec() == old(self).device_spec().pin_spec(),
            final(self).blink_count_spec() == old(self).blink_count_spec(),
    {
        self.device.set_active_high(value)
    }

    /// The GPIO pin number the device is attached to.
    pub fn pin(&self) -> (pin: u8)
        ensures
            pin == self.device_spec().pin_spec(),
    {
        self.device.pin()
    }

    /// Starts blinking in the background: first stop any blinking (pulling the pin low),
    /// then run a blinking loop of `blink_count` blinks (until halted when unset).
    pub fn blink(&self) -> (start: (Drive, BlinkLoop))
        ensures
            is_stop_drive(start.0),
            start.1.remaining_spec() == self.blink_count_spec(),
            !start.1.off_next_spec(),
    {
        (stop_drive(), BlinkLoop::new(self.blink_count))
    }

    /// Sets the number of times the next `blink` blinks.
    pub fn set_blink_count(&mut self, n: i32)
        ensures
            final(self).blink_count_spec() == Some(n),
            final(self).device_spec() == old(self).device_spec(),
    {
        self.blink_count = Some(n)
    }
}

/// A light emitting diode, cathode to ground, anode through a resistor to the pin.
pub struct LED {
    inner: DigitalOutputDevice,
}

impl LED {
    /// The underlying output device (pin and polarity).
    pub closed spec fn device_spec(self) -> OutputDevice {
        self.inner.device_spec()
    }

    /// The number of blinks a `blink` asks for (`None`: until halted).
    pub closed spec fn blink_count_spec(self) -> Option<i32> {
        self.inner.blink_count_spec()
    }

    /// A LED on `pin`, active high, blinking until halted.
    pub fn new(pin: u8) -> (d: LED)
        ensures
            d.device_spec().pin_spec() == pin,
            d.device_spec().active_high_spec(),
            d.blink_count_spec() is None,
    {
        LED { inner: DigitalOutputDevice::new(pin) }
    }

    /// The underlying output device, as the background blinker uses it.
    pub fn device(&self) -> (device: &OutputDevice)
        ensures
            *device == self.device_spec(),
    {
        self.inner.device()
    }

    /// Whether the LED is on, given the level read from its pin.
    pub fn is_active(&self, level: bool) -> (active: bool)
        ensures
            active == self.device_spec().value_of(level),
    {
        self.inner.is_active(level)
    }

    /// Whether the LED is on, given the level read from its pin.
    pub fn value(&self, level: bool) -> (on: bool)
        ensures
            on == self.device_spec().value_of(level),
    {
        self.inner.value(level)
    }

    /// Turns the LED on: stops any blinking (pulling the pin low), then drives the "on" level.
    pub fn on(&self) -> (d: Drive)
        ensures
            is_stop_then(d, self.device_spec().level_for(true)),
            self.device_spec().value_of(d.levels@.last()),
    {
        self.inner.on()
    }

    /// Turns the LED off: stops any blinking (pulling the pin low), then drives the "off" level.
    pub fn off(&self) -> (d: Drive)
        ensures
            is_stop_then(d, self.device_spec().level_for(false)),
            !self.device_spec().value_of(d.levels@.last()),
    {
        self.inner.off()
    }

    /// Reverses the LED's state, given the level read from its pin; a background
    /// blinker is left running.
    pub fn toggle(&self, level: bool) -> (d: Drive)
        ensures
            !d.halt_blinking,
            d.levels@ == seq![self.device_spec().level_for(!self.device_spec().value_of(level))],
    {
        self.inner.toggle(level)
    }

    /// Ends any background blinking and pulls the pin low.
    pub fn stop(&self) -> (d: Drive)
        ensures
            is_stop_drive(d),
    {
        self.inner.stop()
    }

    /// Whether a high pin level means "on".
    pub fn active_high(&self) -> (active_high: bool)
        ensures
            active_high == self.device_spec().active_high_spec(),
    {
        self.inner.active_high()
    }

    /// Makes a high pin level mean "on" (`true`) or "off" (`false`).
    pub fn set_active_high(&mut self, value: bool)
        ensures
            final(self).device_spec().active_high_spec() == value,
            final(self).device_spec().pin_spec() == old(self).device_spec().pin_spec(),
            final(self).blink_count_spec() == old(self).blink_count_spec(),
    {
        self.inner.set_active_high(value)
    }

    /// The GPIO pin number the LED is attached to.
    pub fn pin(&self) -> (pin: u8)
        ensures
            pin == self.device_spec().pin_spec(),
    {
        self.inner.pin()
    }

    /// Whether the LED is lit, given the level read from its pin.
    pub fn is_lit(&self, level: bool) -> (lit: bool)
        ensures
            lit == self.device_spec().value_of(level),
    {
        self.is_active(level)
    }

    /// Starts blinking in the background: first stop any blinking (pulling the pin low),
    /// then run a blinking loop of `blink_count` blinks (until halted when unset).
    pub fn blink(&self) -> (start: (Drive, BlinkLoop))
        ensures
            is_stop_drive(start.0),
            start.1.remaining_spec() == self.blink_count_spec(),
            !start.1.off_next_spec(),
    {
        self.inner.blink()
    }

    /// Sets the number of times the next `blink` blinks.
    pub fn set_blink_count(&mut self, n: i32)
        ensures
            final(self).blink_count_spec() == Some(n),
            final(self).device_spec() == old(self).device_spec(),
    {
        self.inner.set_blink_count(n)
    }
}

/// A digital buzzer, cathode to ground, the other side to the pin.
pub struct Buzzer {
    inner: DigitalOutputDevice,
}

impl Buzzer {
    /// The underlying output device (pin and polarity).
    pub closed spec fn device_spec(self) -> OutputDevice {
        self.inner.device_spec()
    }

    /// The number of beeps a `beep` asks for (`None`: until halted).
    pub closed spec fn blink_count_spec(self) -> Option<i32> {
        self.inner.blink_count_spec()
    }

    /// A buzzer on `pin`, active high, beeping until halted.
    pub fn new(pin: u8) -> (d: Buzzer)
        ensures
            d.device_spec().pin_spec() == pin,
            d.device_spec().active_high_spec(),
            d.blink_count_spec() is None,
    {
        Buzzer { inner: DigitalOutputDevice::new(pin) }
    }

    /// The underlying output device, as the background beeper uses it.
    pub fn device(&self) -> (device: &OutputDevice)
        ensures
            *device == self.device_spec(),
    {
        self.inner.device()
    }

    /// Whether the buzzer is on, given the level read from its pin.
    pub fn is_active(&self, level: bool) -> (active: bool)
        ensures
            active == self.device_spec().value_of(level),
    {
        self.inner.is_active(level)
    }

    /// Whether the buzzer is on, given the level read from its pin.
    pub fn value(&self, level: bool) -> (on: bool)
        ensures
            on == self.device_spec().value_of(level),
    {
        self.inner.value(level)
    }

    /// Turns the buzzer on: stops any beeping (pulling the pin low), then drives the "on" level.
    pub fn on(&self) -> (d: Drive)
        ensures
            is_stop_then(d, self.device_spec().level_for(true)),
            self.device_spec().value_of(d.levels@.last()),
    {
        self.inner.on()
    }

    /// Turns the buzzer off: stops any beeping (pulling the pin low), then drives the "off" level.
    pub fn off(&self) -> (d: Drive)
        ensures
            is_stop_then(d, self.device_spec().level_for(false)),
            !self.device_spec().value_of(d.levels@.last()),
    {
        self.inner.off()
    }

    /// Reverses the buzzer's state, given the level read from its pin; a background
    /// beeper is left running.
    pub fn toggle(&self, level: bool) -> (d: Drive)
        ensures
            !d.halt_blinking,
            d.levels@ == seq![self.device_spec().level_for(!self.device_spec().value_of(level))],
    {
        self.inner.toggle(level)
    }

    /// Ends any background beeping and pulls the pin low.
    pub fn stop(&self) -> (d: Drive)
        ensures
            is_stop_drive(d),
    {
        self.inner.stop()
    }

    /// Whether a high pin level means "on".
    pub fn active_high(&self) -> (active_high: bool)
        ensures
            active_high == self.device_spec().active_high_spec(),
    {
        self.inner.active_high()
    }

    /// Makes a high pin level mean "on" (`true`) or "off" (`false`).
    pub fn set_active_high(&mut self, value: bool)
        ensures
            final(self).device_spec().active_high_spec() == value,
            final(self).device_spec().pin_spec() == old(self).device_spec().pin_spec(),
            final(self).blink_count_spec() == old(self).blink_count_spec(),
    {
        self.inner.set_active_high(value)
    }

    /// The GPIO pin number the buzzer is attached to.
    pub fn pin(&self) -> (pin: u8)
        ensures
            pin == self.device_spec().pin_spec(),
    {
        self.inner.pin()
    }

    /// Starts beeping in the background: first stop any beeping (pulling the pin low),
    /// then run a loop of `beep_count` beeps (until halted when unset).
    pub fn beep(&self) -> (start: (Drive, BlinkLoop))
        ensures
            is_stop_drive(start.0),
            start.1.remaining_spec() == self.blink_count_spec(),
            !start.1.off_next_spec(),
    {
        self.inner.blink()
    }

    /// Sets the number of times the next `beep` beeps.
    pub fn set_beep_count(&mut self, n: i32)
        ensures
            final(self).blink_count_spec() == Some(n),
            final(self).device_spec() == old(self).device_spec(),
    {
        self.inner.set_blink_count(n)
    }
}

/// `on` and `off` always end a background blinker, whichever value they write: their drive
/// clears the blinking flag, pulls the pin low, and then leaves the device reading as that
/// value; `stop` clears the flag and only pulls the pin low.
pub proof fn lemma_on_off_end_blinking(device: OutputDevice, d: Drive, value: bool, s: Drive)
    requires
        is_stop_then(d, device.level_for(value)),
        is_stop_drive(s),
    ensures
        d.halt_blinking,
        d.levels@.len() == 2,
        d.levels@[0] == false,
        device.value_of(d.levels@[1]) == value,
        s.halt_blinking,
        s.levels@.len() == 1,
        s.levels@[0] == false,
{
}

} // verus!
