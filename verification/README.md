# listo_blocks

Verified logic of the listo reference blocks, written in Verus.

- `src/hello.rs`, `src/greeter.rs` — the `com.acme.hello` greeter (wasm and
  process twins): name extraction, greeting, kind and port checks.
- `src/wasm_demo.rs` — `com.acme.wasm-demo` description and kind dispatch.
- `src/bacnet.rs` — `com.listo.bacnet` driver/device/point kinds, the driver
  registry and point requests.
- `src/mqtt.rs` — `com.listo.mqtt-client` client/pub/sub kinds, QoS levels,
  payload encoding, connection settings.
- `src/registry.rs` — sessions keyed by node path.
- `src/bvlc.rs`, `src/bacnet_codec.rs`, `src/bacnet_testing.rs` — BACnet/IP
  framing, the `bacnet-rs` calls, and the test tool's config, device choice,
  name lookup, discovery table and request/answer frames.
- `src/json.rs`, `src/text.rs`, `src/plugin.rs` — JSON text through
  `serde_json`, string helpers, host-facing message shapes.

`app/` holds the host glue: the `bacnet-testing` command line (sockets,
files, printing), serde copies of the config records, the tokio-driven
driver and MQTT session tasks, and the wasm demo's floating-point arithmetic.
