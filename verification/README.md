# night_lamp

Firmware logic of a night lamp on an ESP32-C3: a BH1750 light sensor, an
AM312 motion sensor and one PWM-driven LED. The lamp switches on when the
room turns dark or when someone moves in the dark, fades out over 240 steps
of a gamma-2.2 curve (one step every 5 s, 20 minutes in all), and switches
off at once when the room turns bright.

- `src/` is the verified library (Verus): the controller state machine
  (`controller`), its context (`state`), the events (`event`), the light
  hysteresis of the sampling task (`tasks::light_sensor_task`), the start-up
  light check (`boot`), the fade curve (`utils::fade_table`), the sensor and
  PWM value handling (`drivers`), the fixed parameters (`config`), and
  properties of the parts together (`system`).
- `app/` is the firmware around it: ESP-IDF drivers, the event queue, the
  two tasks and `main`. It performs the I/O and the actions the library
  decides.
- `extras/fade_table.py` regenerates the fade table.
