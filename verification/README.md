# outro_08

A ticket store and the logic of the servers in front of it, verified with Verus.

- `src/` — the verified library:
  - `fields`: ticket titles (non-empty, at most 50 bytes) and descriptions (non-empty, at most 500 bytes);
  - `ticket_id`: ticket identifiers, ordered by their number;
  - `data`: status, tickets, drafts and the flat JSON record;
  - `store`: the store, handing out identifiers 1, 2, 3, …;
  - `query`: the parameters read from a URL query string;
  - `server`: what the HTTP servers answer and how requests change the store;
  - `ack`: the command server's step;
  - `threads`: a sum taken in two halves;
  - `runtime`: how the outcomes of two tasks combine.
- `app/` — the program: sockets, hyper, tokio, threads, channels and JSON output.
- `tests/` — tests of the library.
