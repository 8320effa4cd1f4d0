# rust_hello

A Rust binding to Zephyr's zbus message bus, with its logic verified by Verus.

- `src/zephyr/mod.rs`: kernel object references (`ChannelRef`, `ObserverRef`),
  the conversion of timeouts into the kernel's millisecond argument, the
  reading of zbus status codes, log levels and C strings for the log backend.
- `src/zephyr/zbus.rs`: `Channel`, `ClaimedChannel` and `Subscriber`, and
  channel equality. A claimed channel exists only when the kernel granted
  the claim, and finishing it consumes it and names the channel whose claim
  is released; the release call itself, made when the claimed channel is
  finished or dropped, is in `app/`.
- `src/messages.rs`: the messages that the example application exchanges.
- `app/`: the C entry points and the calls into the Zephyr kernel, which the
  verified library tells what to pass and how to read the answers.
