# Bookworm

A reading tracker for the "1,000 Books Before Kindergarten" challenge: log
each read of a picture book, browse the library of books read, and watch the
progress toward 1,000 unique books before the first day of kindergarten.

## Layout

- `src/` — the verified core, written in Verus:
  - `text.rs`: trimming, decimal notation, replacement and comparison of text;
  - `isbn.rs`: checking and cleaning an ISBN typed or scanned by the reader;
  - `json.rs`, `lookup.rs`: the book lookup by ISBN (Open Library, then
    Google Books) as a step function over the JSON documents it receives;
  - `calendar.rs`: day numbers, date labels and the countdown to kindergarten;
  - `goal.rs`: the goal's percentage, milestones and checkbox grids;
  - `layout.rs`, `pages.rs`, `links.rs`: what each page shows and where its
    links lead;
  - `flows.rs`: the decisions of the request handlers and of start-up.
- `app/` — the server around it: database queries, HTTP requests, HTML
  templates and the floating-point rates shown on the progress and stats pages.
- `tests/` — tests of the core on concrete values.
