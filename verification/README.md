# vessels_web

Runs vessels, which are WebAssembly modules, in a web page. A vessel asks its host for bytes from a
reader and hands bytes to a writer; the host starts it, polls it and tells it when an operation
that it waits for can go on.

- `src/` holds the decisions of the host, verified by Verus: the order of a vessel's start
  (`startup`), the steps of a poll (`poll`), the replies to a vessel's own calls (`context`), the
  flags that its reader and writer raise (`wakeup`), whom to wake (`task`) and the way of the first
  failure to the vessel's end (`failure`). `life` puts them together as a sequence of events, and
  `laws` states what holds of that.
- `app/` performs what is decided: it talks to the page's WebAssembly engine, to the resource
  manager, and to the reader and the writer.
- `tests/` runs the library with the wakers and the channel of the `futures` crate.
