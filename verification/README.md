# Garage Beam

A service for a small Linux host that watches a beam sensor on a GPIO line and mirrors
it to a lamp over Bluetooth Low Energy: the lamp's fact characteristic holds `0x01`
while the beam is broken and `0x00` while it is intact.

## Layout

- `src/` is the policy, verified with Verus. It performs no I/O: the caller hands in what
  it observed and carries out what it is told.
  - `lib.rs`: when a fact has to be written.
  - `gpio.rs`: levels, edges and the refractory window.
  - `controller.rs`: the control loop.
  - `ble.rs`, `supervisor.rs`, `client.rs`: the link, the supervisor that acquires and
    keeps it, and the client that writes to it.
  - `interval.rs`, `hci.rs`, `update.rs`, `socket.rs`, `guard.rs`: the connection interval,
    how it is requested and how it is kept.
  - `instrumentation.rs`: latency samples and percentiles.
  - `config.rs`, `text.rs`, `time.rs`: configuration, text and time.
- `app/` is the service around it: the runtime, the sockets, the line and the radio.
- `tests/` runs the policy on concrete values.

Each state machine of the library has a `next` function that says what it remembers
after an event, and a `step` that is proved to do just that. Properties that span several
calls are the public proof functions whose names begin with `law_`.

Times are counts of nanoseconds on a monotonic clock whose origin the caller picks.

## Configuration

| Variable | Required | Default |
|---|---|---|
| `GARAGE_BEAM_DEVICE_ADDRESS` | yes | none |
| `GARAGE_BEAM_LATENCY` | no | off (`1`, `true`, `yes` and `on` turn it on) |
| `RUST_LOG` | no | `garage_beam=info,warn` |

The host needs D-Bus and BlueZ.

## What is taken on trust

The parser of the `uuid` crate, in one place: `parse_uuid` in `src/ble.rs` states which
number it makes of a UUID in hyphenated form.
