# concurrency_examples

Small networking and concurrency programs (an echo server and client, a
hand-written future, threads, cells, mutexes, atomics) whose decisions are
written and proved in Verus.

- `src/` is the verified library: decoding of received bytes (`message`),
  the echo session's decision step (`echo`), the accept loop's connection
  numbering (`server`), the shared state of the future (`future_state`), the
  arithmetic and stop rules of the worker threads (`workers`, `consumer`).
- `app/` holds the programs themselves: sockets, tasks, threads, locks and
  printing, driving the library's functions. Run it with one of
  `tcp-server`, `tcp-client`, `simple-future`, `threads`, `cells`,
  `mutexes`, `atomics` as its first argument.
- `tests/` exercises the library on concrete values.
