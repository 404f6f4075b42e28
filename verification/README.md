# bibe

The decision logic of the Bibe bike-rental system, verified with Verus.

- `src/gpio.rs` — the GPIO controller interface and a mock controller.
- `src/drink_dispenser.rs` — the drink dispenser's state machine.
- `src/models.rs` — bike statuses and their names, socket addresses, and the
  messages broadcast between server and bikes.
- `src/bike_service.rs` — the default status of new bikes, the command sent
  after a status change, and the status-update transaction as a state machine.
- `src/ws.rs` — websocket messages and what the server and clients do with
  each one they read.
- `src/outbound.rs` — the sending half of a websocket connection: heartbeat
  pings, forwarded broadcasts, and stopping at the first failed send.
- `src/session.rs` — the server's websocket session with one client as a
  state machine, with the online/offline announcements it makes.

`app/` holds the programs around the library: the axum server with its
database and broadcast channel, the drink-dispenser websocket client with its
Raspberry Pi GPIO controller, and the desktop client. They perform the I/O
and hand the library plain values.
