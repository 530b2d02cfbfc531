# mcutie

A simple MQTT client for embedded devices on the `embassy-net` networking
stack, with support for Home Assistant's device auto-discovery.

The crate is split in two:

- `src/` is the verified library. It holds the client's logic with Verus
  contracts: the byte buffer, topics and their full paths, the framing and
  handling of the packets the broker sends (`io`), the requests the client
  sends, the single slot pipe and the lossy queue that the tasks share, the
  builder and the device identity, and the Home Assistant discovery fields
  and light states. Calls into `mqttrs`, `heapless` and `hex` go through
  small trusted wrappers whose contracts are documented where they stand.
- `app/` is the networked side: the global channels, the task that keeps the
  connection to the broker, the async publish/subscribe operations, the
  futures around the pipe, JSON through `serde`, and the network abstraction.
  It calls the library for every decision it takes.

`tests/` exercises the library on concrete values.
