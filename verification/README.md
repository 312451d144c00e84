# ocms

The request rules of the OCMS college management API, verified with Verus.

- `src/` — the library. Every function has a contract; Verus proves all of them except
  the few trusted wrappers that call outside code (the clock, `uuid`, `chrono`, `argon2`,
  the `validator` e-mail check and std's integer parsing), each marked
  `#[verifier::external_body]` with a doc comment saying what it assumes:
  - `access`: role checks (`require_roles`, the staff-action table, student ownership);
  - `auth`: token claims and their lifetime, bearer-header reading, the Argon2 password
    check, sign-in decisions;
  - `validation`: the rules of the request forms and the report of broken rules;
  - `pagination`, `faculty`: page offsets, page lengths and page counts;
  - `courses`, `exams`, `attendance`, `students`: the decisions of the remaining handlers
    (seat capacity, grading bands, session dates, lookups).
- `app/` — the Axum server around it: routing, PostgreSQL queries, JSON, JWT signing and
  checking. It asks the library at every decision.
- `tests/` — tests of the library on concrete values.
