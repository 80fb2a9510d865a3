# plane

The core logic of Plane, a system that runs stateful WebSocket backends behind
an authenticating proxy, written in Verus with its behaviour stated in contracts
and proved.

- `src/` is the verified library: names, tokens and cluster names; backend
  lifecycles; the proxy's request routing, header rewriting, route cache,
  connection monitor, certificate pair and ACME order machine; the controller's
  connect machine; the drone's backend steps and state store; the typed sockets'
  handshakes and message routing. Public proof functions named `law_*` state
  the properties that hold across calls.
- `tests/` runs the library on concrete values.
- `app/` is the proxy program around the library: options, HTTP serving with
  hyper, the controller socket, and JSON on the wire.
