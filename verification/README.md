# auth_microservice

The verified core of an authentication service (sign-up and sign-in flows, sessions
with refresh-token rotation, recovery emails and codes).

- `src/` is the library, verified with Verus: request and response types with their field
  validation (`dto`), the stored records and flow states (`models`), the error types with
  their texts, HTTP answers and mappings (`errors`), the configuration rules (`config`), the
  pure part of the storage layer — key naming, lifetimes, record updates and write outcomes
  (`repositories`) — and the decisions of a few endpoints (`api`).
- `app/` is the program around it: reading the environment, the PostgreSQL and Redis
  repositories, serialized copies of the records, and the HTTP server.
- `tests/` exercises the library with the real outside crates linked.
