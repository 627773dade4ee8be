# galaxy_graphql

The verified core of three small GraphQL services (authentication, planets,
satellites) and of the JWT check in front of them.

- `src/` is the library, verified with Verus:
  - `role` — roles, the `role` request header, role checks and guards;
  - `authorization` — reading the `Authorization` header, asking for the bearer
    token to be decoded, and deciding on the request afterwards;
  - `claims` — token claims and their expiry;
  - `password` — Argon2 hashing and verification of passwords;
  - `users` — stored users, account creation and signing in;
  - `ids` — reading and writing `i32` identifiers as text;
  - `planets`, `satellites` — stored rows, the objects the services show, and
    the conversions between them;
  - `error`, `text` — the shared error type and text helpers.
- `tests/` runs the library on concrete values.
- `app/` holds the services themselves: HTTP (actix-web), GraphQL
  (async-graphql), the database (diesel), Kafka (rdkafka), and the encoding and
  decoding of tokens (jsonwebtoken with serde).
