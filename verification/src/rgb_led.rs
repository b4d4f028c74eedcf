//! A full-colour LED made of a red, a green and a blue LED, each on/off.
use vstd::prelude::*;

use crate::blink::BlinkLoop;
use crate::output_device::OutputDevice;

verus! {

/// One of the three LEDs of an RGB LED.
#[derive(PartialEq, Eq, Structural, Clone, Copy, Debug)]
pub enum Channel {
    Red,
    Green,
    Blue,
}

/// Pin levels for the red, green and blue pins, in that order.
pub open spec fn rgb_writes(red: bool, green: bool, blue: bool) -> Seq<(Channel, bool)> {
    seq![(Channel::Red, red), (Channel::Green, green), (Channel::Blue, blue)]
}

/// What an operation asks of an RGB LED's hardware, in this order: clear the shared
/// "blinking" flag (which ends a background blinker) when `halt_blinking`, then drive each
/// channel's pin as `writes` says, one after the other (high = `true`).
#[derive(Debug)]
pub struct RgbDrive {
    pub halt_blinking: bool,
    pub writes: Vec<(Channel, bool)>,
}

fn push_rgb(writes: &mut Vec<(Channel, bool)>, red: bool, green: bool, blue: bool)
    ensures
        final(writes)@ == old(writes)@ + rgb_writes(red, green, blue),
{
    writes.push((Channel::Red, red));
    writes.push((Channel::Green, green));
    writes.push((Channel::Blue, blue));
    assert(writes@ =~= old(writes)@ + rgb_writes(red, green, blue));
}

/// An RGB LED: three on/off LEDs sharing one polarity.
pub struct RGBLED {
    red: OutputDevice,
    green: OutputDevice,
    blue: OutputDevice,
    blink_count: Option<i32>,
}

impl RGBLED {
    #[verifier::type_invariant]
    spec fn one_polarity(self) -> bool {
        &&& self.red.active_high_spec() == self.green.active_high_spec()
        &&& self.green.active_high_spec() == self.blue.active_high_spec()
    }

    /// Whether a high pin level means "on" (the same for all three LEDs).
    pub closed spec fn active_high_spec(self) -> bool {
        self.red.active_high_spec()
    }

    /// The three LEDs share one polarity, `active_high_spec()`.
    pub open spec fn shares_polarity(self) -> bool {
        &&& self.red_spec().active_high_spec() == self.active_high_spec()
        &&& self.green_spec().active_high_spec() == self.active_high_spec()
        &&& self.blue_spec().active_high_spec() == self.active_high_spec()
    }

    /// The red LED.
    pub closed spec fn red_spec(self) -> OutputDevice {
        self.red
    }

    /// The green LED.
    pub closed spec fn green_spec(self) -> OutputDevice {
        self.green
    }

    /// The blue LED.
    pub closed spec fn blue_spec(self) -> OutputDevice {
        self.blue
    }

    /// The number of blinks a `blink` asks for (`None`: until halted).
    pub closed spec fn blink_count_spec(self) -> Option<i32> {
        self.blink_count
    }

    /// The writes that give the three LEDs the values `red`, `green` and `blue`.
    pub open spec fn color_writes(self, red: bool, green: bool, blue: bool) -> Seq<(Channel, bool)> {
        rgb_writes(
            self.red_spec().level_for(red),
            self.green_spec().level_for(green),
            self.blue_spec().level_for(blue),
        )
    }

    /// Whether any of the three LEDs is on, given the levels read from their pins.
    pub open spec fn any_on(self, red: bool, green: bool, blue: bool) -> bool {
        self.red_spec().value_of(red) || self.green_spec().value_of(green) || self.blue_spec().value_of(
            blue,
        )
    }

    /// The drive that stops blinking (pulling the three pins low) and then gives all three
    /// LEDs the value `value`.
    pub open spec fn stop_then_all(self, d: RgbDrive, value: bool) -> bool {
        &&& d.halt_blinking
        &&& d.writes@ == rgb_writes(false, false, false) + self.color_writes(value, value, value)
    }

    /// An RGB LED on the given pins, with the given polarity for all three LEDs.
    pub fn new(pin_red: u8, pin_green: u8, pin_blue: u8, active_high: bool) -> (led: RGBLED)
        ensures
            led.shares_polarity(),
            led.red_spec().pin_spec() == pin_red,
            led.green_spec().pin_spec() == pin_green,
            led.blue_spec().pin_spec() == pin_blue,
            led.red_spec().active_high_spec() == active_high,
            led.green_spec().active_high_spec() == active_high,
            led.blue_spec().active_high_spec() == active_high,
            led.active_high_spec() == active_high,
            led.blink_count_spec() is None,
    {
        let mut red = OutputDevice::new(pin_red);
        let mut green = OutputDevice::new(pin_green);
        let mut blue = OutputDevice::new(pin_blue);
        red.set_active_high(active_high);
        green.set_active_high(active_high);
        blue.set_active_high(active_high);
        RGBLED { red, green, blue, blink_count: None }
    }

    /// The writes that show a colour: each LED on when its component is lit.
    pub fn set_color(&self, red: bool, green: bool, blue: bool) -> (writes: Vec<(Channel, bool)>)
        ensures
            self.shares_polarity(),
            writes@ == self.color_writes(red, green, blue),
    {
        proof {
            use_type_invariant(self);
        }
        Self::write_color(&self.red, &self.green, &self.blue, red, green, blue)
    }

    fn write_color(
        red: &OutputDevice,
        green: &OutputDevice,
        blue: &OutputDevice,
        red_on: bool,
        green_on: bool,
        blue_on: bool,
    ) -> (writes: Vec<(Channel, bool)>)
        ensures
            writes@ == rgb_writes(
                red.level_for(red_on),
                green.level_for(green_on),
                blue.level_for(blue_on),
            ),
    {
        let mut writes: Vec<(Channel, bool)> = Vec::new();
        push_rgb(
            &mut writes,
            Self::write_state(red, red_on),
            Self::write_state(green, green_on),
            Self::write_state(blue, blue_on),
        );
        assert(writes@ =~= rgb_writes(
            red.level_for(red_on),
            green.level_for(green_on),
            blue.level_for(blue_on),
        ));
        writes
    }

    fn write_state(device: &OutputDevice, value: bool) -> (level: bool)
        ensures
            level == device.level_for(value),
    {
        device.value_to_state(value)
    }

    /// Whether any of the three LEDs is on, given the levels read from their pins.
    pub fn is_active(&self, red: bool, green: bool, blue: bool) -> (active: bool)
        ensures
            self.shares_polarity(),
            active == self.any_on(red, green, blue),
    {
        proof {
            use_type_invariant(self);
        }
        self.red.is_active(red) || self.green.is_active(green) || self.blue.is_active(blue)
    }

    /// Whether any of the three LEDs is lit, given the levels read from their pins.
    pub fn is_lit(&self, red: bool, green: bool, blue: bool) -> (lit: bool)
        ensures
            lit == self.any_on(red, green, blue),
    {
        self.is_active(red, green, blue)
    }

    fn stop_then(&self, value: bool) -> (d: RgbDrive)
        ensures
            self.stop_then_all(d, value),
    {
        let mut writes: Vec<(Channel, bool)> = Vec::new();
        push_rgb(&mut writes, false, false, false);
        let red = self.red.write_state(value);
        let green = self.green.write_state(value);
        let blue = self.blue.write_state(value);
        push_rgb(&mut writes, red, green, blue);
        RgbDrive { halt_blinking: true, writes }
    }

    /// Turns all three LEDs on: stops any blinking (pulling the pins low), then drives
    /// each pin to its "on" level.
    pub fn on(&self) -> (d: RgbDrive)
        ensures
            self.shares_polarity(),
            self.stop_then_all(d, true),
    {
        proof {
            use_type_invariant(self);
        }
        self.stop_then(true)
    }

    /// Turns all three LEDs off: stops any blinking (pulling the pins low), then drives
    /// each pin to its "off" level.
    pub fn off(&self) -> (d: RgbDrive)
        ensures
            self.shares_polarity(),
            self.stop_then_all(d, false),
    {
        proof {
            use_type_invariant(self);
        }
        self.stop_then(false)
    }

    /// Reverses the state of the LED, given the levels read from its pins: if any colour
    /// is on, all are turned off; if none is, all are turned on.
    pub fn toggle(&self, red: bool, green: bool, blue: bool) -> (d: RgbDrive)
        ensures
            self.shares_polarity(),
            self.stop_then_all(d, !self.any_on(red, green, blue)),
    {
        proof {
            use_type_invariant(self);
        }
        if self.is_active(red, green, blue) {
            self.off()
        } else {
            self.on()
        }
    }

    /// Whether the red LED is on, given the level read from its pin.
    pub fn value_red(&self, level: bool) -> (on: bool)
        ensures
            on == self.red_spec().value_of(level),
    {
        self.red.value(level)
    }

    /// Whether the green LED is on, given the level read from its pin.
    pub fn value_green(&self, level: bool) -> (on: bool)
        ensures
            on == self.green_spec().value_of(level),
    {
        self.green.value(level)
    }

    /// Whether the blue LED is on, given the level read from its pin.
    pub fn value_blue(&self, level: bool) -> (on: bool)
        ensures
            on == self.blue_spec().value_of(level),
    {
        self.blue.value(level)
    }

    /// Ends any background blinking and pulls the three pins low.
    pub fn stop(&self) -> (d: RgbDrive)
        ensures
            d.halt_blinking,
            d.writes@ == rgb_writes(false, false, false),
    {
        let mut writes: Vec<(Channel, bool)> = Vec::new();
        push_rgb(&mut writes, false, false, false);
        assert(writes@ =~= rgb_writes(false, false, false));
        RgbDrive { halt_blinking: true, writes }
    }

    /// Whether a high pin level means "on" (for any of the three LEDs, which share one
    /// polarity).
    pub fn active_high(&self) -> (active_high: bool)
        ensures
            self.shares_polarity(),
            active_high == (self.red_spec().active_high_spec() || self.green_spec().active_high_spec()
                || self.blue_spec().active_high_spec()),
            active_high == self.active_high_spec(),
    {
        proof {
            use_type_invariant(self);
        }
        self.red.active_high() || self.green.active_high() || self.blue.active_high()
    }

    /// Makes a high pin level mean "on" (`true`) or "off" (`false`) for all three LEDs.
    pub fn set_active_high(&mut self, value: bool)
        ensures
            final(self).shares_polarity(),
            final(self).active_high_spec() == value,
            final(self).red_spec().active_high_spec() == value,
            final(self).green_spec().active_high_spec() == value,
            final(self).blue_spec().active_high_spec() == value,
            final(self).red_spec().pin_spec() == old(self).red_spec().pin_spec(),
            final(self).green_spec().pin_spec() == old(self).green_spec().pin_spec(),
            final(self).blue_spec().pin_spec() == old(self).blue_spec().pin_spec(),
            final(self).blink_count_spec() == old(self).blink_count_spec(),
    {
        proof {
            use_type_invariant(&*self);
        }
        let (mut red, mut green, mut blue) = (self.red, self.green, self.blue);
        red.set_active_high(value);
        green.set_active_high(value);
        blue.set_active_high(value);
        *self = RGBLED { red, green, blue, blink_count: self.blink_count };
    }

    /// The GPIO pin of the red LED.
    pub fn pin_red(&self) -> (pin: u8)
        ensures
            pin == self.red_spec().pin_spec(),
    {
        self.red.pin()
    }

    /// The GPIO pin of the green LED.
    pub fn pin_green(&self) -> (pin: u8)
        ensures
            pin == self.green_spec().pin_spec(),
    {
        self.green.pin()
    }

    /// The GPIO pin of the blue LED.
    pub fn pin_blue(&self) -> (pin: u8)
        ensures
            pin == self.blue_spec().pin_spec(),
    {
        self.blue.pin()
    }

    /// Starts blinking between two colours in the background: first stop any blinking
    /// (pulling the pins low), then run a blinking loop of `blink_count` blinks (until
    /// halted when unset).
    pub fn blink(&self) -> (start: (RgbDrive, BlinkLoop))
        ensures
            self.shares_polarity(),
            start.0.halt_blinking,
            start.0.writes@ == rgb_writes(false, false, false),
            start.1.remaining_spec() == self.blink_count_spec(),
            !start.1.off_next_spec(),
    {
        proof {
            use_type_invariant(self);
        }
        (self.stop(), BlinkLoop::new(self.blink_count))
    }

    /// Sets the number of times the next `blink` blinks.
    pub fn set_blink_count(&mut self, n: i32)
        ensures
            final(self).shares_polarity(),
            final(self).blink_count_spec() == Some(n),
            final(self).red_spec() == old(self).red_spec(),
            final(self).green_spec() == old(self).green_spec(),
            final(self).blue_spec() == old(self).blue_spec(),
    {
        proof {
            use_type_invariant(&*self);
        }
        self.blink_count = Some(n)
    }
}

/// Toggling reverses the RGB LED's state: once the toggle's writes are done, the LED is
/// lit exactly when it was not lit before.
pub proof fn lemma_rgb_toggle_reverses(led: RGBLED, red: bool, green: bool, blue: bool)
    ensures
        ({
            let on_after = !led.any_on(red, green, blue);
            let written = led.color_writes(on_after, on_after, on_after);
            led.any_on(written[0].1, written[1].1, written[2].1) == on_after
        }),
{
}

/// The RGB LED is lit exactly when at least one of its LEDs is: each of red, green and blue
/// lit on its own makes it lit, and with all three unlit it is not lit.
pub proof fn lemma_rgb_lit_when_any_channel_lit(led: RGBLED, red: bool, green: bool, blue: bool)
    ensures
        led.red_spec().value_of(red) ==> led.any_on(red, green, blue),
        led.green_spec().value_of(green) ==> led.any_on(red, green, blue),
        led.blue_spec().value_of(blue) ==> led.any_on(red, green, blue),
        !led.red_spec().value_of(red) && !led.green_spec().value_of(green)
            && !led.blue_spec().value_of(blue) ==> !led.any_on(red, green, blue),
{
}

/// `on`, `off` and `toggle` always end a background blinker, whichever value they write:
/// their drive clears the blinking flag, pulls the three pins low, and then leaves every
/// LED reading as that value.
pub proof fn lemma_rgb_on_off_end_blinking(led: RGBLED, d: RgbDrive, value: bool)
    requires
        led.stop_then_all(d, value),
    ensures
        d.halt_blinking,
        d.writes@.len() == 6,
        d.writes@[0] == (Channel::Red, false),
        d.writes@[1] == (Channel::Green, false),
        d.writes@[2] == (Channel::Blue, false),
        d.writes@[3].0 == Channel::Red && led.red_spec().value_of(d.writes@[3].1) == value,
        d.writes@[4].0 == Channel::Green && led.green_spec().value_of(d.writes@[4].1) == value,
        d.writes@[5].0 == Channel::Blue && led.blue_spec().value_of(d.writes@[5].1) == value,
{
}

} // verus!
