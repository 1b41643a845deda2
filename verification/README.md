# gabriel2 (remote actors)

The remote side of an actor library: an actor server that serves a local actor
over TCP, and clients that send to it (`send`) or ask it and wait for the answer
(`ask`).

- `src/` is the verified library. It holds the wire format and the decisions
  taken on what is read:
  - `le`: numbers written as little-endian bytes;
  - `wire`: bincode's variable-length format, the guard that keeps a decoder from
    sizing a buffer beyond the input, and the trusted calls into bincode;
  - `frame`: frames on the stream (a `usize` length, then the body);
  - `protocol`: requests and responses and their encoding;
  - `client`: request ids, waiting asks and what a client does with a frame;
  - `server`: what a server does with a frame, and the frame that answers an ask.
- `app/` holds the sockets and tasks (tokio), the buffers that frames are read
  into, and the encoding of the actor's own message, response and error types.
- `tests/` runs the library on concrete values.
