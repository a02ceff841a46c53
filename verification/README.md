# rust_for_web

Verified core of a set of small web services written to compare Rust with
other web stacks.

- `src/` is the library, proved with Verus:
  - `analysis`: word counting by the Unicode `White_Space` rule, the
    sequential article analysis and the analysis report;
  - `race`: the bubble-sort race as a step-by-step state machine with its
    counters, proved to sort, to keep the elements, to swap once per
    inversion and to compare `n * (n - 1) / 2` times;
  - `auth`: registration and login over argon2, token expiry, bearer tokens
    and the user and administrator guards;
  - `sanitize`: article fields cleaned of every HTML tag with ammonia;
  - `service`: status decisions of the HTTP handlers and small fixed data;
  - `frontend`: the user-management page as a state machine;
  - `text`: string equality and prefix stripping.
- `tests/` exercises the library with the real outside crates.
- `app/` is the unverified server around it (axum, sqlx, redis, reqwest,
  jsonwebtoken) and the HTTP driver of the page's state machine.
