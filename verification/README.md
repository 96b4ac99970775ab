# clipped-ipc

The protocol between the Clipped desktop application and its recorder: length
prefixed JSON frames over a local pipe, a handshake that settles the protocol
version and the connection's role, commands answered in order, and event
streams pushed to subscribers. The library is written in Verus, and what each
function does is stated in its `requires` / `ensures` and proved.

## Layout

- `src/` is the verified library.
  - `frame.rs`: the length prefix, framing a payload, reading one back a
    chunk at a time, and why a read failed. The laws there say that a frame
    reads back as the payload it was made from, that two frames read back as
    two, that a frame cut short is a disconnect, and that an oversized frame is
    refused on its prefix alone.
  - `message.rs`, `error.rs`, `status.rs`, `command.rs`: the messages, the
    refusal codes, the recorder's state and the commands, with their wire
    names and the round trips through them.
  - `server.rs`: the recorder's decisions — which handshakes are welcomed,
    which streams are accepted, what a command or a shutdown is answered with,
    and how a decided shutdown governs new recordings.
  - `events.rs`: the subscribers of the event streams, and what publishing an
    event does to them: who is offered it, once, and who stays subscribed.
    Which queue the receiver that subscribing returns reads is not proved,
    since the two ends of a std queue are opaque.
  - `client.rs`: the client's side of the handshake and of each exchange.
  - `supervisor.rs`: the restart policy and the search for a recorder to attach
    to, as a state machine the caller drives.
  - `preview.rs`: base64, and the shapes of a preview.
  - `schema.rs`: the command table a description of the protocol carries,
    the closed lists of values it enumerates, each proved complete, and the
    compatibility policy: which sets of wire strings tolerate a value this
    build does not know.
  - The remaining modules hold the game catalogue entries and the payloads of
    the library, settings, storage, playback, plugin, hotkey, startup and
    diagnostics commands.
- `tests/` runs the library on concrete values.
- `app/` is ordinary Rust around the library: the `serde` forms of its types,
  reading and writing frames on a stream, the server's and client's loops, and
  starting a recorder process.
