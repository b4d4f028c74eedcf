//! The generic GPIO output device: how a logical value (on/off) maps to a pin level.
use vstd::prelude::*;

verus! {

/// A generic GPIO output device: the pin it drives and its polarity.
///
/// `active_state` is the pin level (high = `true`) that means "on",
/// `inactive_state` the one that means "off"; they always differ.
#[derive(Clone, Copy, Debug)]
pub struct OutputDevice {
    pin: u8,
    active_state: bool,
    inactive_state: bool,
}

impl OutputDevice {
    #[verifier::type_invariant]
    spec fn polarity_consistent(self) -> bool {
        self.inactive_state == !self.active_state
    }

    /// The GPIO pin number the device is attached to.
    pub closed spec fn pin_spec(self) -> u8 {
        self.pin
    }

    /// Whether a high pin level means "on".
    pub closed spec fn active_high_spec(self) -> bool {
        self.active_state
    }

    /// The pin level that represents the logical value `value`.
    pub open spec fn level_for(self, value: bool) -> bool {
        value == self.active_high_spec()
    }

    /// The logical value that the pin level `level` represents.
    pub open spec fn value_of(self, level: bool) -> bool {
        level == self.active_high_spec()
    }

    /// An output device on `pin`, active high.
    pub fn new(pin: u8) -> (d: OutputDevice)
        ensures
            d.pin_spec() == pin,
            d.active_high_spec(),
    {
        OutputDevice { pin, active_state: true, inactive_state: false }
    }

    /// The pin level that represents the logical value `value`.
    pub fn value_to_state(&self, value: bool) -> (state: bool)
        ensures
            state == self.level_for(value),
    {
        proof {
            use_type_invariant(self);
        }
        if value {
            self.active_state
        } else {
            self.inactive_state
        }
    }

    /// The logical value that the pin level `state` represents.
    pub fn state_to_value(&self, state: bool) -> (value: bool)
        ensures
            value == self.value_of(state),
    {
        state == self.active_state
    }

    /// Whether the device is on, given the level `level` read from its pin.
    pub fn value(&self, level: bool) -> (on: bool)
        ensures
            on == self.value_of(level),
    {
        self.state_to_value(level)
    }

    /// Whether the device is active (on), given the level `level` read from its pin.
    pub fn is_active(&self, level: bool) -> (active: bool)
        ensures
            active == self.value_of(level),
    {
        self.value(level)
    }

    /// Makes a high pin level mean "on" (`true`) or "off" (`false`).
    ///
    /// This does not touch the pin: it changes how its level is read and written.
    pub fn set_active_high(&mut self, value: bool)
        ensures
            final(self).active_high_spec() == value,
            final(self).pin_spec() == old(self).pin_spec(),
    {
        let pin = self.pin;
        if value {
            *self = OutputDevice { pin, active_state: true, inactive_state: false };
        } else {
            *self = OutputDevice { pin, active_state: false, inactive_state: true };
        }
    }

    /// Whether a high pin level means "on".
    pub fn active_high(&self) -> (active_high: bool)
        ensures
            active_high == self.active_high_spec(),
    {
        self.active_state
    }

    /// The pin level that turns the device on.
    pub fn on(&self) -> (level: bool)
        ensures
            level == self.level_for(true),
            self.value_of(level),
    {
        self.write_state(true)
    }

    /// The pin level that turns the device off.
    pub fn off(&self) -> (level: bool)
        ensures
            level == self.level_for(false),
            !self.value_of(level),
    {
        self.write_state(false)
    }

    /// The pin level that reverses the device's state, given the level `level` read from
    /// its pin: off if it is on, on if it is off.
    pub fn toggle(&self, level: bool) -> (next: bool)
        ensures
            next == (if self.value_of(level) { self.level_for(false) } else { self.level_for(true) }),
            self.value_of(next) == !self.value_of(level),
    {
        if self.is_active(level) {
            self.off()
        } else {
            self.on()
        }
    }

    /// The pin level that gives the device the logical value `value`.
    pub fn write_state(&self, value: bool) -> (level: bool)
        ensures
            level == self.level_for(value),
    {
        self.value_to_state(value)
    }

    /// The GPIO pin number the device is attached to.
    pub fn pin(&self) -> (pin: u8)
        ensures
            pin == self.pin_spec(),
    {
        self.pin
    }
}

/// Writing a logical value and reading it back gives that value; reading a level and
/// writing the value read gives that level.
pub proof fn lemma_value_state_round_trip(device: OutputDevice, value: bool, level: bool)
    ensures
        device.value_of(device.level_for(value)) == value,
        device.level_for(device.value_of(level)) == level,
{
}

/// Changing the polarity inverts the device's value without touching the pin: the same
/// level reads as the opposite value, and on and off swap their levels.
pub proof fn lemma_polarity_change_inverts(before: OutputDevice, after: OutputDevice, level: bool)
    requires
        after.active_high_spec() == !before.active_high_spec(),
    ensures
        after.value_of(level) == !before.value_of(level),
        after.level_for(true) == before.level_for(false),
        after.level_for(false) == before.level_for(true),
{
}

/// The polarity says which level means "on": an active-high device is on exactly when its
/// pin is high and is turned on by driving it high; an active-low one the other way round.
pub proof fn lemma_active_high_means_high_is_on(device: OutputDevice, level: bool)
    ensures
        device.active_high_spec() ==> (device.value_of(level) == level && device.level_for(true)
            && !device.level_for(false)),
        !device.active_high_spec() ==> (device.value_of(level) == !level && !device.level_for(true)
            && device.level_for(false)),
{
}

} // verus!
