# goal_tracker

A web service for keeping track of personal goals: accounts, login
sessions, password resets by mail, and goals.

- `src/` is the library, verified with Verus: the password and form
  checks, the HTTP answer to each error, session cookies, random tokens,
  the settings, the text handling they rest on (trimming, decimal parsing,
  UUID formatting), and, for each request, the steps that follow its
  database reads (`steps.rs`): which rows are written or deleted, in which
  order, which mail is sent, and the answer.
- `app/` is the server around it: routes, the database reads, performing
  the steps against the database and the mailer, and the environment.
- `tests/` runs the library on concrete values.
