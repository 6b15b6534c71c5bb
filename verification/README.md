# hmi_server

The decision logic of an OpenFMB microgrid HMI server, written in Verus and
proved against its contracts.

The server watches OpenFMB messages on a NATS bus, turns them into data
points for browser clients, and turns the clients' commands back into OpenFMB
controls. The library holds what that takes to decide:

- `settings`, `connection`, `coordinator`, `pubsub`, `configuration`: the
  settings store, the NATS environments and credentials, the connection
  status, and the reconnect backoff.
- `routing`, `registry`, `dispatch`, `updates`, `flatten`, `ordered`: which
  messages are published where, the subscriber of each profile group, how a
  client's update is routed, and how a message becomes the data points each
  client session is sent.
- `control`, `control_type`, `csg`, `equipment`: how a generic command
  becomes a control plan for a device, and the curve schedules of ESS, solar,
  generation and regulator controls.
- `auth`: users, roles, password checks, login tokens, and the check of a
  request's bearer token against the identity provider's keys.
- `export`: the devices of a one-line diagram.
- `logging`, `ui_keys`, `timestamp`, `error`, `messages`, `text`: the log
  plan, the key bindings of the terminal UI, the date of an OpenFMB
  timestamp, the error kinds and shared helpers.

`app/` is the program around the library: the HTTP and websocket server, the
NATS client, configuration files and the OpenFMB protobuf messages. `tests/`
runs the library on concrete values.
