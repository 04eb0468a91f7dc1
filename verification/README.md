# quic-talk

A simple chat program over QUIC. Two peers introduce themselves to each other,
then exchange messages, each on a stream of its own; every message is
acknowledged, and one that could not be sent, or that the peer asks for again, is
sent again.

- `src/` is the verified library: users and messages, the steps of a session and
  the tasks that run it, the choice of TLS credentials and of what to trust, the
  set-up of the endpoints, the console and the start and end of the program.
- `app/` is the program around it: the command line, files, name resolution,
  QUIC connections and JSON.
- `tests/` runs the library.
