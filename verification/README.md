# ilos_proxy

A Cloudflare worker that fronts a university's learning-management site
(ILOS): it logs a student in, lists the lectures still to watch, gives the
public addresses of a lecture's videos, marks a lecture as watched, and resets
a lecture's viewing time.

- `src/` is the library, verified with Verus. Each handler is a state
  machine: it starts from what the client sent, asks for requests to the
  site one at a time, and ends with a reply. `router` picks the handler, runs
  the machine and puts the CORS headers on every reply; its laws show that
  every exchange ends, and that every reply can be sent.
  Regular expressions (`regex`) and HTML queries (`scraper`) are called
  through the trusted items in `pattern` and `html`.
- `app/` is the worker: it reads the client's request, sends the requests
  that the library describes, and turns the library's replies into
  responses.
- `tests/` runs the library against the real `regex` and `scraper` crates.
