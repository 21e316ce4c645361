# Players REST API, verified

A sample REST API over a squad of football players. The library under
`src/` is verified with Verus; `app/` serves it over HTTP with Axum.

- `src/models/player.rs`: request and response bodies, the validation rules
  of a request (names of at least one character, squad numbers 1 to 99).
- `src/state/player_collection.rs`: the stored players, an ordered list in
  which identifiers and squad numbers are unique; lookups and the checked
  insertion, replacement and removal; the seeded collection.
- `src/state/squad.rs`: the seed, Argentina's 2022 World Cup squad.
- `src/services/player_service.rs`: create, read, update and delete, their
  effect on the list as spec functions, and the laws that relate them.
- `src/routes/`: the answer of every endpoint, as a status code and a body.
- `app/`: the Axum server, JSON bodies, the OpenAPI document and Swagger UI.
