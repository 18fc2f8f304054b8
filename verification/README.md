# tokio_udp

A UDP socket for tokio with zero-copy vectored sends, in two parts.

- `src/` is the library: everything the socket decides, as functions and state
  machines whose contracts Verus proves. It makes no system call and never
  waits.
- `app/` is the socket itself. It makes the calls and waits, and asks the
  library what to do around them.

The library's modules:

| module        | what it decides                                                     |
|---------------|---------------------------------------------------------------------|
| `open`        | the steps that open a socket, and what a failing one leads to       |
| `address`     | what is made of an address that the system reports                  |
| `platform`    | the backend, the way to wait and the way to clone on each system    |
| `gather`      | how several buffers become one datagram                             |
| `backoff`     | when a send that failed is tried again                              |
| `send`        | what each attempt of a send that is tried again hands over          |
| `interest`    | the readiness conditions that each operation asks for               |
| `nonblocking` | how an operation that never waits keeps cached readiness in step    |
| `receive`     | when a datagram that was taken counts as received                   |
| `history`     | what becomes of datagrams over time, whoever asks for them          |
| `error`       | how failures are told apart                                         |
