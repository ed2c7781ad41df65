# libutp-rs

An async Rust interface to [libutp](https://github.com/bittorrent/libutp), with a verified core.

libutp runs the UTP protocol over a UDP socket and reports what happens by callbacks. The library
under `src/` holds what an async interface to it has to know and to decide, and makes no system
calls. Its behaviour is stated in contracts that [Verus](https://github.com/verus-lang/verus) proves;
`src/laws.rs` and `src/text_laws.rs` state what holds of several operations together.

- `src/context.rs`, `src/socket.rs`: contexts, listeners and sockets, and what each callback, event
  and poll does to them
- `src/data_queue.rs`, `src/reader.rs`, `src/writer.rs`, `src/connector.rs`, `src/socket_queue.rs`,
  `src/error_channel.rs`: their parts
- `src/wrappers.rs`: libutp's events, states, errors and callback arguments
- `src/udp.rs`, `src/thread.rs`: the event loop of the UDP socket, the thread that checks timeouts, and the
  flag that ends both
- `src/addr.rs`, `src/addr_map.rs`, `src/addrinfo.rs`, `src/text.rs`, `src/io.rs`: addresses, their
  texts and look-up, and failures
- `app/`: the calls into libutp and the operating system, threads, locks and the async traits
- `app/ucat.rs`: an example, which sends what is typed to the other side and prints what comes
- `tests/`: tests of the library

The queues of received bytes and of waiting connections are crossbeam's. What the library takes for
granted of them is stated beside the calls, in `src/data_queue.rs` and `src/socket_queue.rs`.
