# mercury_monitor

A monitor for the Mercury 236 three-phase electricity meter. It polls the meter over
a serial line and publishes its readings to an MQTT broker, where Home Assistant
finds them.

`src/` is the verified library: every function in it is proved by Verus against its
contract, and the laws that hold of the whole are public proof functions named
`law_...`.

- `crc`, `polynomial`, `frame`: the checksum, what it is in algebra, and the frames
  that it closes.
- `decode`, `meter`, `error`: the numbers on the wire, the commands and replies of
  the meter, and what can go wrong.
- `exchange`: one command and its reply, as a sequence of actions on the line.
- `snapshot`, `session`: one polling cycle, and the course of the monitor.
- `sensor`, `mqtt`, `json`, `discovery`, `report`: the sensors, their topics, how they
  are announced and how their readings are reported.
- `settings`, `number`, `text`: what the environment sets, and numbers as text.

What is not proved is what `json` says of `serde_json`.

`app/` is the program: the serial port, the broker, the clock and the log. It also
turns readings into floating-point numbers. `tests/` runs the library.

## Settings

`SERIAL_PORT`, `BAUD_RATE`, `MQTT_HOST`, `MQTT_PORT`, `MQTT_USER`, `MQTT_PASSWORD`,
`ACCOUNT_ID`, `DEVICE_ID`, `POLL_INTERVAL` (seconds) and `LOG_LEVEL` (`debug`, `info`,
`warn` or `error`) are read from the environment or a `.env` file.
