# ble_bringup

Bring-up and event handling of a Bluetooth Low Energy peripheral built on the
nRF5 SDK and SoftDevice, written as verified decisions: which SDK call comes
next, with which arguments, and what a failing status code does.

- `src/sdk.rs`: the SDK calls and their arguments as plain values.
- `src/units.rs`, `src/config.rs`: unit conversions and the configuration values.
- `src/procedure.rs`: runs a plan of calls, halting on the first failed check.
- `src/handlers.rs`: the plans for start-up, advertising, sleep and SDK events.
- `src/bringup.rs`: the bring-up of the stack (`init_bt`), which passes the start
  of application RAM reported by the SoftDevice on to the calls that need it.
- `app/main.rs`: the firmware entry point and callbacks, which perform the calls
  through the SDK bindings.
