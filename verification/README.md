# quiche_bench

A latency bench for QUIC, on top of [quiche](https://docs.rs/quiche). A
publisher sends blocks of a fixed size over a one-way stream, one every period,
each stamped with the time of its start; a subscriber cuts the stream into
blocks again and measures how long each was on its way. A few smaller clients
and servers are there to try a connection out.

## Layout

- `src/` is the library. It decides and computes, and does no I/O: an endpoint is
  told what happened and answers with what is to be done. All of it is verified
  with Verus.
  - `block`, `aggregator`: the format of blocks, and blocks out of a stream
  - `publisher`, `subscriber`, `schedule`: the bench
  - `quic_client`, `burst_client`, `echo_client`, `ping_client`: other clients
  - `server`, `dcid_server`, `registry`: servers, and what they keep per peer
  - `quic_config`, `handshake`, `transport`, `packet`: what is asked of quiche
- `app/` is the program: sockets, clocks, certificate files and the command line.
- `tests/` runs the library on concrete values.

## What is proved

Each function says what it returns. Beyond that, the library states how its
parts fit together, among others:

- whatever the publisher goes through, its stream holds whole blocks, in order,
  each stamped with its own time (`publisher::lemma_stream_is_blocks`);
- however that stream is cut into pieces, a subscriber hands out exactly the
  blocks that were sent, and reads the times off them
  (`subscriber::lemma_handed_out_is_sent`);
- no block is started before the period of the one before it is over, but for one
  look at the clock (`publisher::lemma_period_is_kept`), and so the stamps of two
  blocks in a row are apart (`publisher::lemma_stamps_are_apart`);
- the clients with large messages send them whole, never too many, and end the
  stream only when all were taken (`quic_client::lemma_finishes_after_all`).

What quiche, ring and the standard library do is not proved: the items that say
so are marked, and their comments tell what is taken for granted.

## Building

quiche is used with its `openssl` feature, and needs an OpenSSL that has the QUIC
API of quictls to be linked into a program. Servers read `cert.crt` and
`cert.key`, the greeting server `cert.pem` and `key.pem`.
