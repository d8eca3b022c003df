# gis_server

A small web service that stores GeoJSON locations per user and runs PostGIS
functions on them, behind bearer-token authorization.

- `src/` is the verified library (Verus): role checks and bearer-token
  extraction (`auth`), token claims and their checks (`jwt`), Argon2 password
  hashing (`hashing`), the statements built with sqlx's `QueryBuilder`
  (`sql`, `location`, `gis`), and the answers of every handler (`response`,
  `users`, `location`, `gis`).
- `app/` is the actix-web server: environment, database access, JSON
  (de)serialisation, jsonwebtoken signing and decoding, routes, and the
  handlers that hand what they read to the library.
- `tests/` runs the library on concrete values.
