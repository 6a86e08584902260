# node_core

Core logic of a rollup node, verified with [Verus](https://github.com/verus-lang/verus).

- `src/` is the verified library:
  - `block`, `buffer`, `buffered`, `missing`: the in-memory buffer for blocks that arrive ahead of
    the block store. Blocks are handed to the store one by one and in sequence.
  - `history`: laws that hold of the buffer over any sequence of operations.
  - `vm_utils`: how a virtual machine executes a transaction, and which environment it gets.
  - `debug`, `trace_transaction`, `trace_call`: call traces of blocks, transactions and calls.
  - `decimal`, `ordered`, `primitives`: what the others share.
- `app/` is the asynchronous side: locks, channels, storage and the virtual machine.
- `tests/` runs the library on concrete values.

Work that alternates between decisions and the outside world is written as a sequence of steps: a
step says what has to be fetched or executed, and takes the outcome to produce the next one.
