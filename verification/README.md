# coremidi

Bindings for Apple's CoreMIDI with a verified core.

- `src/` is the library, written in Verus: status codes and error texts,
  `MIDIPacketList` and `MIDIEventList` images (building and reading them),
  UMP message helpers and option flags, the thru-connection parameter blob
  (encoding, decoding and their round trip), notification decoding, the
  connection table of protocol input ports, the receive-side record ring,
  owned copies of event lists, and the checks the bridge calls need.
- `app/` is the ordinary Rust around it: the CoreMIDI, CoreFoundation and
  Swift-bridge entry points, clients, ports, virtual endpoints, receive
  callbacks, async streams and the JSON forms of the bridge's payloads.
- `tests/` exercises the library from outside.
