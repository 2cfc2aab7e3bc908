# can_monitor_1_rust

Firmware logic for an Arduino (ATmega328P) monitor with two proximity
sensors, a run button with a backlight, and a passive buzzer alarm.

- `src/` is the verified library (Verus):
  - `log` — event codes, the in-memory ring log of the last 64 events, and
    the persistent event log in EEPROM (`log/eeprom.rs`) with its byte layout;
  - `sensor` — the stuck-sensor check;
  - `alarm` — the alarm state and, in `alarm/buzzer.rs`, the buzzer's sound
    patterns as sequences of tones and pauses;
  - `program` — `Monitor`, the decisions of the main loop: run button with
    debounce and blinking light (`button_step`), then serial commands
    (`command_step`: `p`/`r` pause and resume, `d` dump, `e` dump and `c`
    clear the EEPROM log), then sensor health, alarm and periodic dumps
    (`reading_step`).
- `app/` is the board program: pins, delays, serial printing, the EEPROM
  registers, and the main loops that feed readings to `Monitor` and carry
  out what it decides.
- The library keeps its state in `Vec`s (the 64-record log, a 1024-byte
  EEPROM image, the dumps it hands out), so it needs an allocator and more
  RAM than the ATmega328P's 2 KB; `app/` shows how the board drives it.
- `tests/` exercises the library on concrete values.
