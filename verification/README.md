# vocai

Vocabulary trainer with spaced repetition, AI-generated flashcards and
W9 DB sign-in. The crate is split in two:

- `src/` — the verified library (Verus). Spaced-repetition scheduling
  (`srs`), the sliding-window rate limiter (`rate_limit`), session cookies
  (`session`), UUID text and parsing (`ids`), percent-encoding (`urlenc`),
  the NVIDIA chat client's requests and replies (`nvidia`), the Pollinations
  image client and text-to-speech links (`pollinations`), and the decisions
  of every HTTP handler (`handlers`: sign-in state machine, saving,
  generation, migration, reviews, islands, pages). Each public function
  carries a contract; the `law_*` proof functions state properties that
  span calls (when a key's requests arrive in time order, no window admits
  more than the limit; the login cookie reads back as the same session;
  forgotten cards come back a minute later; streaks grow by one a day, ...).
- `app/` — the server around it: axum routes, PostgreSQL through bb8,
  HTTP calls with reqwest, the easiness factor of SM-2 (floating point),
  clock and randomness.
- `tests/` — executable tests of the library on concrete values.
