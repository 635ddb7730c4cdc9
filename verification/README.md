# mqtt_gate

Firmware for an ESP32 two-leaf gate controller that Home Assistant drives over
MQTT. The decisions are in a library verified with Verus. The hardware,
networking and task plumbing around it are ordinary Rust.

* `src/` is the verified library. It covers command gating (wind lock, light
  barriers, the impulse cycle), leaf position tracking and the staggered
  open/close runs, the input watchers, the start-up decisions, the
  provisioning form, Home Assistant discovery configs, incoming message
  dispatch, and the MQTT 3.1.1 packet format and client session.
* `app/` is the firmware around the library: `main`, GPIO, Wi-Fi, flash
  storage, HTTP, DHCP, the TCP socket, the queues between tasks, and the
  serde forms of the library's records.
* `tests/` runs the library on concrete inputs.

Times are microseconds since boot on a 1 MHz monotonic clock. The caller
reads the clock and passes it in.
