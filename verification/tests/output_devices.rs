use rust_gpiozero::blink::{blink_sequence, fade_frames};
use rust_gpiozero::{
    BlinkLoop, BlinkStep, Buzzer, Channel, DigitalOutputDevice, Frame, FrameStep, OutputDevice,
    PwmBlinkLoop, PwmSetting, Servo, ServoError, LED, PWMLED, PWMOutputDevice, RGBLED, RGBPWMLED,
};

#[test]
fn output_device_defaults_to_active_high() {
    let d = OutputDevice::new(17);
    assert_eq!(d.pin(), 17);
    assert!(d.active_high());
    assert!(d.on());
    assert!(!d.off());
    assert!(d.value(true));
    assert!(!d.value(false));
    assert!(d.is_active(true));
}

#[test]
fn output_device_active_low_inverts_levels() {
    let mut d = OutputDevice::new(4);
    d.set_active_high(false);
    assert!(!d.active_high());
    assert!(!d.on());
    assert!(d.off());
    assert!(d.value(false));
    assert!(!d.value(true));
    assert_eq!(d.value_to_state(true), false);
    assert_eq!(d.state_to_value(false), true);
    assert_eq!(d.pin(), 4);
}

#[test]
fn output_device_polarity_change_keeps_pin_and_inverts_value() {
    let mut d = OutputDevice::new(9);
    let before = d.value(true);
    d.set_active_high(false);
    assert_eq!(d.value(true), !before);
    d.set_active_high(true);
    assert_eq!(d.value(true), before);
    assert_eq!(d.pin(), 9);
}

#[test]
fn output_device_toggle_reverses() {
    let d = OutputDevice::new(1);
    assert_eq!(d.toggle(true), false);
    assert_eq!(d.toggle(false), true);
    assert_eq!(d.value(d.toggle(true)), false);
    let mut low = OutputDevice::new(1);
    low.set_active_high(false);
    assert_eq!(low.toggle(false), true);
    assert_eq!(low.value(low.toggle(false)), false);
}

#[test]
fn output_device_write_state_round_trips() {
    for active_high in [true, false] {
        let mut d = OutputDevice::new(2);
        d.set_active_high(active_high);
        for v in [true, false] {
            assert_eq!(d.state_to_value(d.write_state(v)), v);
        }
        for level in [true, false] {
            assert_eq!(d.value_to_state(d.state_to_value(level)), level);
        }
    }
}

#[test]
fn digital_on_stops_blinking_then_drives_on_level() {
    let d = DigitalOutputDevice::new(17);
    let on = d.on();
    assert!(on.halt_blinking);
    assert_eq!(on.levels, vec![false, true]);
    let off = d.off();
    assert!(off.halt_blinking);
    assert_eq!(off.levels, vec![false, false]);
}

#[test]
fn digital_active_low_on_and_off() {
    let mut d = DigitalOutputDevice::new(17);
    d.set_active_high(false);
    assert!(!d.active_high());
    assert_eq!(d.on().levels, vec![false, false]);
    assert_eq!(d.off().levels, vec![false, true]);
    assert_eq!(d.pin(), 17);
}

#[test]
fn digital_toggle_leaves_blinker_running() {
    let d = DigitalOutputDevice::new(3);
    let t = d.toggle(true);
    assert!(!t.halt_blinking);
    assert_eq!(t.levels, vec![false]);
    assert_eq!(d.toggle(false).levels, vec![true]);
    assert!(d.value(true));
    assert!(!d.is_active(false));
}

#[test]
fn digital_stop_pulls_low() {
    let mut d = DigitalOutputDevice::new(3);
    d.set_active_high(false);
    let s = d.stop();
    assert!(s.halt_blinking);
    assert_eq!(s.levels, vec![false]);
}

#[test]
fn digital_blink_uses_blink_count() {
    let mut d = DigitalOutputDevice::new(3);
    let (stop, mut looper) = d.blink();
    assert!(stop.halt_blinking);
    assert_eq!(stop.levels, vec![false]);
    for _ in 0..10 {
        assert_eq!(looper.step(true), BlinkStep::TurnOn);
        assert_eq!(looper.step(true), BlinkStep::TurnOff);
    }
    d.set_blink_count(2);
    let (_, mut looper) = d.blink();
    assert_eq!(looper.step(true), BlinkStep::TurnOn);
    assert_eq!(looper.step(true), BlinkStep::TurnOff);
    assert_eq!(looper.step(true), BlinkStep::TurnOn);
    assert_eq!(looper.step(true), BlinkStep::TurnOff);
    assert_eq!(looper.step(true), BlinkStep::Finished);
    assert_eq!(d.device().pin(), 3);
}

#[test]
fn led_is_lit_and_blinks() {
    let mut led = LED::new(14);
    assert!(led.is_lit(true));
    assert!(!led.is_lit(false));
    led.set_blink_count(1);
    let (_, mut looper) = led.blink();
    assert_eq!(looper.step(true), BlinkStep::TurnOn);
    assert_eq!(looper.step(true), BlinkStep::TurnOff);
    assert_eq!(looper.step(true), BlinkStep::Finished);
    assert_eq!(led.on().levels, vec![false, true]);
    assert_eq!(led.pin(), 14);
}

#[test]
fn buzzer_beeps_count() {
    let mut b = Buzzer::new(22);
    b.set_beep_count(3);
    let (stop, mut looper) = b.beep();
    assert!(stop.halt_blinking);
    let mut ons = 0;
    let mut offs = 0;
    loop {
        match looper.step(true) {
            BlinkStep::TurnOn => ons += 1,
            BlinkStep::TurnOff => offs += 1,
            BlinkStep::Finished => break,
            BlinkStep::Halt => panic!("the flag was never cleared"),
        }
    }
    assert_eq!((ons, offs), (3, 3));
    assert_eq!(b.off().levels, vec![false, false]);
}

#[test]
fn blink_loop_counted() {
    let mut l = BlinkLoop::new(Some(2));
    assert_eq!(l.step(true), BlinkStep::TurnOn);
    assert_eq!(l.step(true), BlinkStep::TurnOff);
    assert_eq!(l.step(true), BlinkStep::TurnOn);
    assert_eq!(l.step(true), BlinkStep::TurnOff);
    assert_eq!(l.step(true), BlinkStep::Finished);
    assert_eq!(l.step(false), BlinkStep::Finished);
}

#[test]
fn blink_loop_zero_or_negative_count_does_nothing() {
    assert_eq!(BlinkLoop::new(Some(0)).step(true), BlinkStep::Finished);
    assert_eq!(BlinkLoop::new(Some(-4)).step(false), BlinkStep::Finished);
}

#[test]
fn blink_loop_halts_without_writing_when_flag_cleared() {
    let mut l = BlinkLoop::new(None);
    assert_eq!(l.step(true), BlinkStep::TurnOn);
    assert_eq!(l.step(true), BlinkStep::TurnOff);
    assert_eq!(l.step(true), BlinkStep::TurnOn);
    // cleared between the on half and the off half: the off half is not written
    assert_eq!(l.step(false), BlinkStep::Halt);
    assert_eq!(l.step(true), BlinkStep::Finished);
    let mut counted = BlinkLoop::new(Some(5));
    assert_eq!(counted.step(true), BlinkStep::TurnOn);
    assert_eq!(counted.step(true), BlinkStep::TurnOff);
    assert_eq!(counted.step(false), BlinkStep::Halt);
    assert_eq!(counted.step(true), BlinkStep::Finished);
}

#[test]
fn fade_frames_are_25_per_second() {
    assert_eq!(fade_frames(3000), 75);
    assert_eq!(fade_frames(500), 12);
    assert_eq!(fade_frames(40), 1);
    assert_eq!(fade_frames(39), 0);
    assert_eq!(fade_frames(0), 0);
    assert_eq!(fade_frames(u32::MAX), 107374182);
}

#[test]
fn blink_sequence_layout() {
    let seq = blink_sequence(1000, 2000);
    assert_eq!(seq.len(), 25 + 1 + 50 + 1);
    assert_eq!(seq[0], Frame::FadeIn(0));
    assert_eq!(seq[24], Frame::FadeIn(24));
    assert_eq!(seq[25], Frame::On);
    assert_eq!(seq[26], Frame::FadeOut(0));
    assert_eq!(seq[75], Frame::FadeOut(49));
    assert_eq!(seq[76], Frame::Off);
    assert_eq!(blink_sequence(0, 0), vec![Frame::On, Frame::Off]);
}

#[test]
fn blink_sequence_half_second_fade() {
    let seq = blink_sequence(500, 0);
    assert_eq!(seq.len(), 12 + 2);
    assert_eq!(seq[11], Frame::FadeIn(11));
    assert_eq!(seq[12], Frame::On);
    assert_eq!(seq[13], Frame::Off);
}

#[test]
fn pwm_loop_counted_passes() {
    let mut l = PwmBlinkLoop::new(Some(2), 3);
    let mut applied = Vec::new();
    loop {
        match l.step(true) {
            FrameStep::Apply(i) => applied.push(i),
            FrameStep::Finished => break,
        }
    }
    assert_eq!(applied, vec![0, 1, 2, 0, 1, 2]);
}

#[test]
fn pwm_loop_cleared_flag_ends_counted_loop() {
    let mut l = PwmBlinkLoop::new(Some(2), 3);
    assert_eq!(l.step(true), FrameStep::Apply(0));
    assert_eq!(l.step(false), FrameStep::Finished);
    assert_eq!(l.step(true), FrameStep::Finished);
}

#[test]
fn pwm_loop_cleared_flag_ends_endless_loop() {
    let mut l = PwmBlinkLoop::new(None, 2);
    assert_eq!(l.step(true), FrameStep::Apply(0));
    assert_eq!(l.step(true), FrameStep::Apply(1));
    assert_eq!(l.step(true), FrameStep::Apply(0));
    assert_eq!(l.step(false), FrameStep::Finished);
    // a later blink setting the shared flag again does not revive it
    assert_eq!(l.step(true), FrameStep::Finished);
}

#[test]
fn pwm_loop_zero_count_finishes() {
    assert_eq!(PwmBlinkLoop::new(Some(0), 4).step(true), FrameStep::Finished);
}

#[test]
fn rgb_led_new_sets_polarity() {
    let led = RGBLED::new(12, 19, 13, false);
    assert_eq!(led.pin_red(), 12);
    assert_eq!(led.pin_green(), 19);
    assert_eq!(led.pin_blue(), 13);
    assert!(!led.active_high());
    assert!(led.value_red(false));
    assert!(!led.value_green(true));
    assert!(led.value_blue(false));
}

#[test]
fn rgb_led_set_color_writes_levels() {
    let led = RGBLED::new(12, 19, 13, true);
    assert_eq!(
        led.set_color(true, true, false),
        vec![(Channel::Red, true), (Channel::Green, true), (Channel::Blue, false)]
    );
    let low = RGBLED::new(12, 19, 13, false);
    assert_eq!(
        low.set_color(true, false, false),
        vec![(Channel::Red, false), (Channel::Green, true), (Channel::Blue, true)]
    );
}

#[test]
fn rgb_led_on_off_stop_first() {
    let led = RGBLED::new(1, 2, 3, true);
    let on = led.on();
    assert!(on.halt_blinking);
    assert_eq!(
        on.writes,
        vec![
            (Channel::Red, false),
            (Channel::Green, false),
            (Channel::Blue, false),
            (Channel::Red, true),
            (Channel::Green, true),
            (Channel::Blue, true),
        ]
    );
    let off = led.off();
    assert_eq!(off.writes[3..].to_vec(), vec![(Channel::Red, false), (Channel::Green, false), (Channel::Blue, false)]);
}

#[test]
fn rgb_led_toggle_reverses_state() {
    let led = RGBLED::new(1, 2, 3, true);
    // one colour on: toggling turns everything off
    let t = led.toggle(true, false, false);
    assert_eq!(t.writes[3..].to_vec(), vec![(Channel::Red, false), (Channel::Green, false), (Channel::Blue, false)]);
    // everything off: toggling turns everything on
    let t = led.toggle(false, false, false);
    assert_eq!(t.writes[3..].to_vec(), vec![(Channel::Red, true), (Channel::Green, true), (Channel::Blue, true)]);
    assert!(led.is_active(false, false, true));
    assert!(!led.is_lit(false, false, false));
}

#[test]
fn rgb_led_active_high_and_blink() {
    let mut led = RGBLED::new(1, 2, 3, true);
    led.set_active_high(false);
    assert!(!led.active_high());
    led.set_blink_count(5);
    let (stop, mut looper) = led.blink();
    assert_eq!(stop.writes, vec![(Channel::Red, false), (Channel::Green, false), (Channel::Blue, false)]);
    for _ in 0..5 {
        assert_eq!(looper.step(true), BlinkStep::TurnOn);
        assert_eq!(looper.step(true), BlinkStep::TurnOff);
    }
    assert_eq!(looper.step(true), BlinkStep::Finished);
    assert!(led.stop().halt_blinking);
}

#[test]
fn pwm_device_blink_and_polarity() {
    let mut d = PWMOutputDevice::new(18);
    assert!(d.active_high());
    assert_eq!(d.pin(), 18);
    d.set_active_high(false);
    assert!(!d.active_high());
    d.set_blink_count(2);
    let mut b = d.blink(0, 0);
    assert!(!b.active_high);
    assert_eq!(b.frames, vec![Frame::On, Frame::Off]);
    assert_eq!(b.looper.step(true), FrameStep::Apply(0));
    assert_eq!(b.looper.step(true), FrameStep::Apply(1));
    assert_eq!(b.looper.step(true), FrameStep::Apply(0));
    assert_eq!(b.looper.step(true), FrameStep::Apply(1));
    assert_eq!(b.looper.step(true), FrameStep::Finished);
    let p = d.pulse(1000, 1000);
    assert_eq!(p.frames.len(), 52);
    assert!(!d.device().active_high());
    assert!(d.is_active(false));
    assert!(!d.is_active(true));
}

#[test]
fn pwm_led_delegates() {
    let mut led = PWMLED::new(5);
    led.set_blink_count(1);
    let b = led.blink(2000, 0);
    assert_eq!(b.frames.len(), 52);
    assert_eq!(b.frames[50], Frame::On);
    assert!(led.pwm().active_high());
    assert_eq!(led.pulse(0, 40).frames[1], Frame::FadeOut(0));
}

#[test]
fn rgb_pwm_led_new_and_toggle() {
    let mut led = RGBPWMLED::new(16, 20, 21, false);
    assert!(!led.red().pwm().active_high());
    assert!(!led.green().pwm().active_high());
    assert!(!led.blue().pwm().active_high());
    assert_eq!(led.blue().pwm().pin(), 21);
    // active low: pins held high read as off, a low pin reads as on
    assert!(!led.is_active(true, true, true));
    assert!(led.is_active(true, false, true));
    assert!(led.toggle(true, true, true));
    assert!(!led.toggle(false, true, true));
    led.set_blink_count(3);
    let (r, g, b) = led.pulse(1000, 1000);
    assert_eq!(r.frames.len(), 52);
    assert!(!g.active_high);
    assert_eq!(b.frames[25], Frame::On);
    let (r, _, _) = led.blink(0, 0);
    assert_eq!(r.frames, vec![Frame::On, Frame::Off]);
}

#[test]
fn servo_defaults_and_positions() {
    let s = Servo::new(17);
    assert_eq!(s.min(), PwmSetting { period_ms: 20, pulse_width_us: 1000 });
    assert_eq!(s.max(), PwmSetting { period_ms: 20, pulse_width_us: 2000 });
    assert_eq!(s.mid(), PwmSetting { period_ms: 20, pulse_width_us: 1500 });
    assert_eq!(s.pulse_range(), 1000);
    assert_eq!(s.set_position(0), s.min());
    assert_eq!(s.set_position(1000), s.max());
    assert_eq!(s.set_position(250), PwmSetting { period_ms: 20, pulse_width_us: 1250 });
}

#[test]
fn servo_mid_rounds_down() {
    let mut s = Servo::new(17);
    assert_eq!(s.set_min_pulse_width(1001), Ok(()));
    assert_eq!(s.mid().pulse_width_us, 1500);
}

#[test]
fn servo_min_pulse_width_must_be_below_max() {
    let mut s = Servo::new(17);
    assert_eq!(s.set_min_pulse_width(2000), Err(ServoError::MinNotBelowMax));
    assert_eq!(s.get_min_pulse_width(), 1000);
    assert_eq!(s.set_min_pulse_width(500), Ok(()));
    assert_eq!(s.get_min_pulse_width(), 500);
    assert_eq!(
        ServoError::MinNotBelowMax.message(),
        "min_pulse_width must be less than max_pulse_width"
    );
}

#[test]
fn servo_max_pulse_width_must_be_below_frame() {
    let mut s = Servo::new(17);
    assert_eq!(s.set_max_pulse_width(20000), Err(ServoError::MaxNotBelowFrame));
    assert_eq!(s.get_max_pulse_width(), 2000);
    assert_eq!(s.set_max_pulse_width(19999), Ok(()));
    assert_eq!(s.get_max_pulse_width(), 19999);
    s.set_frame_width(10);
    assert_eq!(s.get_frame_width(), 10);
    assert_eq!(s.set_max_pulse_width(10000), Err(ServoError::MaxNotBelowFrame));
    assert_eq!(
        ServoError::MaxNotBelowFrame.message(),
        "max_pulse_width must be less than frame_width"
    );
}
