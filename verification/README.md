# protocol_interceptor

Interception of the byte streams that a server protocol reads and writes:
every connection asks a shared channel factory for an interception channel,
and when one comes every byte read or written is also offered, in order, to
the channel's writers.

- `src/` is the verified library: the byte and item queues, the interceptor
  that keeps what its writer has not taken yet, the pairing of channel ends,
  and the decisions of each future, stream and sink, stated over models and
  proved with Verus.  For the interceptor, each step is proved, and a lemma
  proves that a whole read or write (drain the queue, then forward what
  passed) keeps every byte in order; the loop that runs those steps, and the
  calls to the wrapped reader, writer and interceptor, are in `app/`.
- `app/` implements the futures 0.1, tokio-io and tokio-proto traits around
  those decisions: it locks, polls and writes, and hands each outcome to the
  library.
- `tests/` runs the library on concrete values.
