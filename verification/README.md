# rust_gpiozero

Output devices for GPIO pins (LEDs, buzzers, RGB LEDs, PWM LEDs, servos), split in two:

- `src/` is the verified library. Each device is a model of what decides its outputs:
  polarity, blink count, servo pulse widths. Its functions return the pin levels or PWM
  settings to drive, and the background blinking loops are state machines whose steps
  take the shared "blinking" flag. Contracts and laws are proved with Verus.
  - `output_device`: the logical value / pin level mapping of one pin.
  - `digital`: `DigitalOutputDevice`, `LED`, `Buzzer`.
  - `rgb_led`: `RGBLED`.
  - `blink`: the digital and PWM blinking loops and the PWM frame sequence.
  - `pwm`: `PWMOutputDevice`, `PWMLED`, `RGBPWMLED`.
  - `servo`: `Servo`.
- `app/` drives the hardware with `rppal`, runs the blinking threads, and does the
  floating-point work (durations, duty cycles, `palette` colours, the motor's speed).
