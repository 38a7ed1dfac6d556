# cosupport

A coroutine scheduler over mio's event loop, with its decisions verified by Verus.

- `src/` is the verified library:
  - `token_table` — the table of coroutines that wait for I/O, kept in mio's slab
    and keyed by event-loop token;
  - `processor` — the work-stealing scheduling loop of a processor, as a state
    machine that hands out one command at a time;
  - `standalone` — the simpler per-thread loop of the demo program;
  - `transfer` — the machines behind a coroutine's read, write and accept;
  - `scheduler` — the shared work count and the processor registry;
  - `net` — sockets over mio's TCP sockets, host lookup, and the address search;
  - `stdio` — the flags that make the standard streams non-blocking.
- `app/` runs those machines against the real queues, channels, event loops and
  coroutines, and holds the demo program.
- `tests/` runs the library on concrete inputs.
