# mysk_lib

The library behind the MySK API, with its logic verified by Verus.

- `src/` is the verified library: API keys (`auth::key`), Google sign-in state, parameters
  and key selection (`auth::oauth`), errors and their status codes (`error`), response
  envelopes and pagination (`common`), `WHERE` clauses and sort orders built as sequences of
  query pieces (`query`, `models::*::request`), the record forms of clubs, contacts,
  classrooms and cheer practice (`models::*`), the school calendar (`helpers::date`) and the
  staff cache (`cache`). Randomness, hashing, Base58, token headers, UUID text, clocks and
  the concurrent index come from their crates through small trusted wrappers whose
  contracts say what those crates document.
- `tests/` runs the library on concrete values.
- `app/` carries values between the library and the outside world: configuration from the
  environment, serde forms of the library's types, sqlx statements, HTTP calls to Google and
  actix responses.
