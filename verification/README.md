# vibecat

A small netcat clone: it connects to a host or listens for one connection,
then pipes standard input and output through a TCP or UDP socket, dual-stack
(IPv6 and IPv4) by default. With `-z` it only tests whether a TCP port is
open, then exits.

## Layout

- `src/` — the verified library (Verus):
  - `cli.rs` — validation of the command line into a `Config`;
  - `decimal.rs` — parsing port arguments and rendering ports as text;
  - `pump.rs` — the byte pump, the decision rule it follows, and the pipe
    that logs each call it makes on its reader and writer;
  - `net.rs` — which addresses to listen on or try, how TCP attempts race,
    which address a UDP client uses, how listening sockets are set up, and
    how the single connection is accepted and how each listener of an
    accept race polls;
  - `settle.rs` — first success wins, else the last failure;
  - `verbose.rs` — the messages of `-v`.
- `app/` — the program: clap parsing, sockets (std and socket2), threads,
  and printing.
- `tests/` — tests of the library.
