# fabsee

Firmware for a small ESP32 robot with an ultrasonic intrusion sensor, a
joystick, an OLED screen, an LED, a servo and a motor, driven over Wi-Fi
through a tiny web interface.

- `src/` is the verified library: the firmware's decisions (duty cycles,
  change and press detection, intrusion hysteresis, screen policy, link
  supervision, request handling), written as pure functions and state
  machines with Verus contracts and laws.
  - `motors`: servo and motor duty cycles, the arming sequence, and the
    `/servo` and `/motor` handlers.
  - `joystick`: which joystick samples are published.
  - `supersonic`: intrusion detection with hysteresis from echo timings.
  - `oled`: what the screen shows at each refresh tick.
  - `wifi`: the network seed and the link supervisor that reconnects.
  - `led`, `server`, `mqtt`: request and response types and the `/led` handler.
- `app/` is the firmware around it (embassy tasks, esp-hal peripherals,
  picoserve routes, the display drawing): it performs the I/O and hands the
  results to the library. A few small choices stay there with the I/O they
  steer: a failed ADC read is retried at once, and the distance shown on
  screen is a float computed from the pulse width.
- `tests/` runs the library on concrete values.
