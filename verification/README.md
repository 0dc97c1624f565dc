# glide_fabric

The client side of direct memory transfers with a Valkey server, in verified Rust.

A transfer command travels over the ordinary RESP connection; the payload does not. The
server reads or writes memory that the client registered with a fabric (libfabric over
tcp or EFA) and answers with a byte count and, if asked, a CRC-32c.

## Layout

- `src/` is the library, verified with Verus.
  - `text`, `hex`, `checksum`: decimal and hexadecimal text, and CRC-32c.
  - `config`: which fabric to open.
  - `resp`: what the library has from the `redis` crate. Its wrappers are the trusted
    part, together with `Arc::clone` in `dma::fabric` and `String::push` in `text`.
  - `dma`: the `DMA.*` commands, registered buffers and their windows, and the check that
    a node's fabric suits this client's.
  - `rdma`: the `LO.*` commands, the handshake and the session it opens, refusing such
    commands from anywhere else, and the regions a client revokes when it closes.
  - `ffi`: the rules of the C boundary, with an `Option` for each pointer that may be
    null.
- `tests/` runs the library.
- `app/` holds the I/O: the connection, the endpoint behind a fabric, the regions that
  several threads share, and the C functions.

Work that only the fabric or the server can do comes in as a function argument, and the
contracts say when it is called and what is made of what it returns.
