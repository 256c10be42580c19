# master_server

The back end of a small blog: accounts with sign-up and login, HS256 tokens,
posts with tags, paged listings, and Kafka consumers that print or translate
messages.

- `src/` is the library, verified with Verus. It holds the models, the error
  answers, the sign-up checks (password strength, confirmation, e-mail
  pattern), password hashing and checking, issuing and checking tokens, and
  the decisions of the handlers: the steps of storing a post with its tags
  (`post::PostCreation`), the paging of a user's posts, whom a request's
  token names, and what a consumer does with each message. Calls into
  `jwt-simple`, `argon2`, `zxcvbn`, `regex`, `uuid` and the clocks go through
  small trusted wrappers whose contracts say what the crates document.
- `app/` is the program: the Rocket routes, the request guard, the Postgres
  queries, the JSON forms of the models, and the consumer loops. It runs the
  library's decisions and performs the I/O they ask for.
- `tests/` runs the library with the real crates linked.
