# ble-central-gateway

A gateway between a Bluetooth Low Energy vent and an HTTP API, which also
forwards the readings of an air-quality sensor to an MQTT broker.

- `src/` is the library, verified with Verus: configuration validation, the
  vent service's state machine (connection, status notifications, discovered
  devices, vent commands), decoding of the sensor's advertisement payload,
  validation of MQTT publication requests, the answers of the HTTP API, the
  error type with its messages and HTTP status codes, and the throttle that
  keeps repeated MQTT errors out of the log. Public proof functions state the
  laws that hold across calls (for instance, that a command confirmed by the
  device sets the matching status, or that a device seen twice is listed once).
- `app/` is the program around it: command line, configuration loading, the
  HTTP server, the btleplug backend, the MQTT client, and the tasks that feed
  backend events into the library's state machine. Connecting and
  disconnecting are step functions of the library (state and event in, next
  action out): app/ performs each action against the backend and hands the
  answer back, so the order of the backend calls is the library's.
- `tests/` exercises the library on concrete values.

## Dependencies

`dbus` (with its `vendored` feature) is used by no code of this crate. btleplug's
Linux backend reaches BlueZ through the `dbus` crate, which links the system
library libdbus; the `vendored` feature builds libdbus from the source that
ships with `libdbus-sys`, so the program builds on a host without the
libdbus development files.
