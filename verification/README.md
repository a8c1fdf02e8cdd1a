# full_duplex_io

A buffered reader and a full-duplex copy between two byte streams, with the buffering
and the copying decisions verified in Verus.

- `src/buffer.rs`: the fixed-size read buffer (read position, fill mark) with its type
  invariant, and the laws on consuming, reading and scattering reads.
- `src/bufreader.rs`: `BufReader`, which pairs a reader with a buffer, decides when a read
  bypasses the buffer, serves reads from it, and plans seeks on the underlying reader and
  steps through them, discarding the buffer after each one that succeeds.
- `src/copy.rs`: one direction of the copy as a step function from events (what the
  outside I/O reported) to actions (what I/O to do next).
- `src/duplex.rs`: the two directions together: the random choice of which goes first and
  the decision that ends, suspends or repeats a round.
- `app/`: the `futures-lite` traits, pinning and the poll loops that perform the I/O the
  library asks for.
