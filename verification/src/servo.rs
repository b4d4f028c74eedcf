//! A servo motor driven by software PWM: one control pulse per frame, whose width sets
//! the position.
use vstd::prelude::*;

verus! {

/// A software PWM setting: one pulse of `pulse_width_us` microseconds every
/// `period_ms` milliseconds.
#[derive(PartialEq, Eq, Structural, Clone, Copy, Debug)]
pub struct PwmSetting {
    pub period_ms: u64,
    pub pulse_width_us: u64,
}

/// Why a servo refused a new pulse width.
#[derive(PartialEq, Eq, Structural, Clone, Copy, Debug)]
pub enum ServoError {
    /// The minimum pulse width must be less than the maximum one.
    MinNotBelowMax,
    /// The maximum pulse width must be less than the frame width.
    MaxNotBelowFrame,
}

impl ServoError {
    /// The message the refusal is reported with.
    pub fn message(&self) -> (m: &'static str)
        ensures
            *self == ServoError::MinNotBelowMax ==> m@ == "min_pulse_width must be less than max_pulse_width"@,
            *self == ServoError::MaxNotBelowFrame ==> m@ == "max_pulse_width must be less than frame_width"@,
    {
        match self {
            ServoError::MinNotBelowMax => "min_pulse_width must be less than max_pulse_width",
            ServoError::MaxNotBelowFrame => "max_pulse_width must be less than frame_width",
        }
    }
}

/// A PWM-controlled servo motor: pulse widths in microseconds, the frame (the time
/// between control pulses) in milliseconds.
#[derive(Debug)]
pub struct Servo {
    pin: u8,
    min_pulse_width: u64,
    max_pulse_width: u64,
    frame_width: u64,
}

impl Servo {
    /// The GPIO pin the servo is attached to.
    pub closed spec fn pin_spec(self) -> u8 {
        self.pin
    }

    /// The pulse width of the minimum position, in microseconds.
    pub closed spec fn min_spec(self) -> u64 {
        self.min_pulse_width
    }

    /// The pulse width of the maximum position, in microseconds.
    pub closed spec fn max_spec(self) -> u64 {
        self.max_pulse_width
    }

    /// The time between control pulses, in milliseconds.
    pub closed spec fn frame_spec(self) -> u64 {
        self.frame_width
    }

    /// The setting that sends pulses of `pulse_width` microseconds, one per frame.
    pub open spec fn setting_for(self, pulse_width: int) -> PwmSetting {
        PwmSetting { period_ms: self.frame_spec(), pulse_width_us: pulse_width as u64 }
    }

    /// A servo on `pin` with a minimum pulse width of 1 ms, a maximum of 2 ms and a frame
    /// of 20 ms.
    pub fn new(pin: u8) -> (s: Servo)
        ensures
            s.pin_spec() == pin,
            s.min_spec() == 1000,
            s.max_spec() == 2000,
            s.frame_spec() == 20,
    {
        Servo { pin, min_pulse_width: 1000, max_pulse_width: 2000, frame_width: 20 }
    }

    /// The setting of the minimum position.
    pub fn min(&self) -> (setting: PwmSetting)
        ensures
            setting == self.setting_for(self.min_spec() as int),
    {
        PwmSetting { period_ms: self.frame_width, pulse_width_us: self.min_pulse_width }
    }

    /// The setting of the maximum position.
    pub fn max(&self) -> (setting: PwmSetting)
        ensures
            setting == self.setting_for(self.max_spec() as int),
    {
        PwmSetting { period_ms: self.frame_width, pulse_width_us: self.max_pulse_width }
    }

    /// The setting of the neutral position, halfway between the minimum and the maximum
    /// pulse width (rounded down).
    pub fn mid(&self) -> (setting: PwmSetting)
        requires
            self.min_spec() + self.max_spec() <= u64::MAX,
        ensures
            setting == self.setting_for((self.min_spec() + self.max_spec()) / 2),
    {
        let mid_value = (self.min_pulse_width + self.max_pulse_width) / 2;
        PwmSetting { period_ms: self.frame_width, pulse_width_us: mid_value }
    }

    /// The span of pulse widths between the minimum and the maximum position.
    pub fn pulse_range(&self) -> (range: u64)
        requires
            self.min_spec() <= self.max_spec(),
        ensures
            range == self.max_spec() - self.min_spec(),
    {
        self.max_pulse_width - self.min_pulse_width
    }

    /// The setting of the position whose pulse is `offset` microseconds longer than the
    /// minimum one; a position from -1 to +1 maps linearly to an offset from 0 to
    /// `pulse_range()`, so every position lies between the minimum and the maximum.
    pub fn set_position(&self, offset: u64) -> (setting: PwmSetting)
        requires
            self.min_spec() <= self.max_spec(),
            offset <= self.max_spec() - self.min_spec(),
        ensures
            setting == self.setting_for(self.min_spec() + offset),
            self.min_spec() <= setting.pulse_width_us <= self.max_spec(),
            setting.period_ms == self.frame_spec(),
    {
        PwmSetting { period_ms: self.frame_width, pulse_width_us: self.min_pulse_width + offset }
    }

    /// Sets the minimum pulse width; refused unless it is less than the maximum one.
    pub fn set_min_pulse_width(&mut self, value: u64) -> (r: Result<(), ServoError>)
        ensures
            r is Ok <==> value < old(self).max_spec(),
            r is Err ==> r == Err::<(), ServoError>(ServoError::MinNotBelowMax),
            r is Ok ==> final(self).min_spec() < final(self).max_spec(),
            old(self).min_spec() < old(self).max_spec() ==> final(self).min_spec() < final(self).max_spec(),
            final(self).min_spec() == (if r is Ok { value } else { old(self).min_spec() }),
            final(self).max_spec() == old(self).max_spec(),
            final(self).frame_spec() == old(self).frame_spec(),
            final(self).pin_spec() == old(self).pin_spec(),
    {
        if value >= self.max_pulse_width {
            Err(ServoError::MinNotBelowMax)
        } else {
            self.min_pulse_width = value;
            Ok(())
        }
    }

    /// Sets the maximum pulse width; refused unless it is less than the frame width.
    pub fn set_max_pulse_width(&mut self, value: u64) -> (r: Result<(), ServoError>)
        requires
            old(self).frame_spec() * 1000 <= u64::MAX,
        ensures
            r is Ok <==> value < old(self).frame_spec() * 1000,
            r is Err ==> r == Err::<(), ServoError>(ServoError::MaxNotBelowFrame),
            r is Ok ==> final(self).max_spec() < final(self).frame_spec() * 1000,
            final(self).max_spec() == (if r is Ok { value } else { old(self).max_spec() }),
            final(self).min_spec() == old(self).min_spec(),
            final(self).frame_spec() == old(self).frame_spec(),
            final(self).pin_spec() == old(self).pin_spec(),
    {
        if value >= self.frame_width * 1000 {
            Err(ServoError::MaxNotBelowFrame)
        } else {
            self.max_pulse_width = value;
            Ok(())
        }
    }

    /// Sets the frame width (the time between control pulses, in milliseconds).
    pub fn set_frame_width(&mut self, value: u64)
        ensures
            final(self).frame_spec() == value,
            final(self).min_spec() == old(self).min_spec(),
            final(self).max_spec() == old(self).max_spec(),
            final(self).pin_spec() == old(self).pin_spec(),
    {
        self.frame_width = value;
    }

    /// The minimum pulse width, in microseconds.
    pub fn get_min_pulse_width(&mut self) -> (w: u64)
        ensures
            w == old(self).min_spec(),
            *final(self) == *old(self),
    {
        self.min_pulse_width
    }

    /// The maximum pulse width, in microseconds.
    pub fn get_max_pulse_width(&mut self) -> (w: u64)
        ensures
            w == old(self).max_spec(),
            *final(self) == *old(self),
    {
        self.max_pulse_width
    }

    /// The frame width (the time between control pulses, in milliseconds).
    pub fn get_frame_width(&mut self) -> (w: u64)
        ensures
            w == old(self).frame_spec(),
            *final(self) == *old(self),
    {
        self.frame_width
    }
}

/// The positions span the servo's range: the lowest offset gives the minimum position's
/// setting, the whole range the maximum one's, and the neutral setting lies between them.
pub proof fn lemma_positions_span_range(servo: Servo)
    requires
        servo.min_spec() <= servo.max_spec(),
    ensures
        servo.setting_for(servo.min_spec() + 0) == servo.setting_for(servo.min_spec() as int),
        servo.setting_for(servo.min_spec() + (servo.max_spec() - servo.min_spec())) == servo.setting_for(
            servo.max_spec() as int,
        ),
        servo.min_spec() <= (servo.min_spec() + servo.max_spec()) / 2 <= servo.max_spec(),
{
}

} // verus!
