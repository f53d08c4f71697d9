# courselend

A course-literature lending service: users borrow and return the books of
their courses, sell books to the service, and look up the books of the
courses that start in the next study period.

`src/` is the verified library:

- `models`, `tables`: the stored records.
- `calendar`: which days exist (through `chrono`), their order, the study
  periods of the academic year and the due day of a loan.
- `text`: error lines, lists of course names, decimal numbers.
- `json`: what the service reads from and writes as JSON (through
  `serde_json`).
- `auth`: the checks of a token against the authentication service.
- `protocol`: the queries, web calls, answers and replies of the handlers.
- `stock`, `catalog`, `courses`, `loans`: one state machine per request
  handler; each step takes the answer to the last action and decides the
  next action.
- `totp`: one-time codes from a shared secret (through `sha256`).

`app/` is the web service around it: the routes (`rocket`), the database
(`diesel` on MySQL), the web calls (`reqwest`) and the JSON of the records
(`serde`). It performs the actions that the state machines ask for.
