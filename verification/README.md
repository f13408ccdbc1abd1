# modbus_service

The client side of a _Modbus_ connection, with its decisions verified by Verus.

- `src/frame/`, `src/slave.rs`, `src/error.rs`: requests, responses, frames and errors.
- `src/service/actor.rs`: handles, the commands that they queue, and what callers are told.
- `src/service/connection.rs`: the actor that owns a connection, stage by stage.
- `src/service/rtu.rs`, `src/service/tcp.rs`: how requests are framed on each transport.
- `src/service/channel.rs`: what is believed of the channels of `tokio::sync`.
- `src/service/laws.rs`: what holds of a connection over its whole life.
- `app/`: the asynchronous loop around the library, over any transport and codec.
