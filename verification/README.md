# gitreal

The verified core of the GitReal backend, a daily coding-challenge service.

- `src/` (verified with Verus): which user a request acts for and how a bad
  or missing session id is answered (`api`), decimal text of ids and the law
  that it parses back (`decimal`), the per-reaction tallies that assemble a
  commit's reaction counts and a user's own reactions (`reactions`), the
  signed-in user's profile and the user lookup query (`user`), and the making
  of a new commit with its random hex hash (`commit`).
- `app/`: the actix-web routes, the sqlx queries and the JSON shapes, which
  call into the library for every decision.
- `tests/`: tests of the library on concrete values.
