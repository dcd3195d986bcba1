# baphonet

A TCP client and server exchanging messages of a user type (the `Message`
trait), each message framed by a two-byte little-endian size header.

## Layout

- `src/` — the verified library (Verus):
  - `frame.rs`: the size header, with its round-trip laws;
  - `client/`: settings and their rules (`builder`), the dispatcher, the
    transceiver and transmitter, and the decision cores of the client and of
    its worker thread (`client`, `worker`);
  - `server/`: settings and their rules, dispatcher, sender, transceiver,
    the tasks of the supervisor, and the decision cores of the server, of the
    supervisor and of the workers;
  - `channel.rs`, `io.rs`: the std items the library leans on (thread
    channels, I/O error kinds), with the contracts assumed of them.
- `app/` — the thread and network layer: the `Client` and `Server` types, the
  worker threads and the supervisor thread, which read and write the TCP
  streams and run the loops, asking the verified cores what to do at each step.
- `tests/` — tests of the library.
