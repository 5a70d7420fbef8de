# lgtv_manager

An asynchronous control manager for LG TVs that speak the webOS SSAP WebSocket protocol:
UPnP discovery, connecting and pairing, sending commands, tracking the TV's state, automatic
reconnects, Wake-on-LAN, and persisting the last TV's details between sessions.

## Layout

- `src/` is the library, verified with Verus. It holds every decision the manager takes:
  - `commands.rs`, `ssap_request.rs`, `json.rs`, `register.rs`: the SSAP request texts, with
    JSON escaping proved against `serde_json`'s rules and the registration payload built with
    `serde_json`.
  - `state_machine.rs`: the connection state machine (transition and output functions) and
    its laws.
  - `helpers.rs`, `url_parts.rs`, `net.rs`: WebSocket URL generation through the `url` crate,
    MAC addresses through `macaddr`, and the reconnect back-off.
  - `discovery.rs`: which UPnP devices count as LG TVs, and the MAC address in `arp` output.
  - `websocket.rs`: the WebSocket handler's reactions to caller messages, frames and ticks.
  - `manager*.rs`: `ManagerCore`, the manager's state and its reaction to every event, as a
    list of `ManagerAction`s for a runner to perform; `manager_laws.rs` states the properties
    that hold across events.
- `app/` is the runner around the library: tokio tasks and channels, the WebSocket connection
  (`tokio-tungstenite`), ICMP pings (`surge-ping`), UPnP (`rupnp`), the state machine task
  (`rust-fsm`), Wake-on-LAN (`wol-rs`), the persisted-state file (`directories`, `serde_json`),
  and `serde` forms of the payloads.
- `tests/` exercises the library on concrete values.

The base registration payload (the TV manifest) is read at start-up from
`resources/register_payload.json`, or given with `LgTvManagerBuilder::with_register_payload`.
