# esp_voice

The logic of a voice echo program for an ESP32 board with the ESP-SR audio
front end: it greets, records what is said after the front end detects
speech, and plays it back. The logic is a Verus library; the board is driven
by `app/`.

- `src/audio.rs`: wake-net state names, and what one fetch of the front end
  yields (audio, an error, a wake-net change to report).
- `src/config.rs`: the front-end settings as plain values, and the settings
  the wake-word front end applies.
- `src/report.rs`: the log lines that describe a configuration.
- `src/session.rs`: the recording and playback loops as state machines that
  return the actions to perform.
- `src/multinet.rs`: the set-up of the command recogniser as a state machine.
- `src/text.rs`: decimal and boolean text.
- `app/`: the FFI calls, the I2S drivers, logging and threads.
