# xor_api

The API server of the `xor` project: GraphQL over HTTP for the `User` domain, with requests
authenticated by an RS256 bearer token.

- `src/` is the verified library.
  - `auth/authenticate.rs`: reading the `Authorization: Bearer <token>` header
    (`jwt_from_header`, `strip_bearer`) and turning a token into a `Subject` by verifying it
    against the issuer's key set (`Subject::from_token`, `Subject::from_headers`), with the
    laws of that process.
  - `auth/keys.rs`: the key set (public keys under their key ids, RSA keys with their modulus
    and exponent) and the lookup of the key that a token names.
  - `auth/errors.rs`: `AuthError`, its status codes and response texts.
  - `users/`: the `User` model and the decisions of the resolvers, the users service and the
    dataloader; `role_grants/`: the `RoleGrant` model.
  - `trusted.rs`: the outside types the library carries and the trusted wrappers around
    `http`, `std::str::from_utf8`, `biscuit`, `num` and `chrono`.
- `app/` is the server around it: configuration, the database (SeaORM), the GraphQL schema
  (async-graphql), the axum routes and extractors. The server has no websocket `/events`
  route and its `Context` no `connections`: the connection registry, the message format and
  the message routing that they would need are not part of this code base.
- `tests/` exercise the library, including tokens signed and verified with a real RSA key.
