# axum_oidc_client

Login with OAuth2 and OpenID Connect, with PKCE, for axum applications. The
decisions of the flow are verified with Verus.

- `src/` is the verified library. Each route of the flow is a state machine: a
  function starts it, and `step` takes it from the outcome of one effect to the
  next effect or to the result. Every contract gives the next step exactly, over
  mathematical models of the values; public proof functions state what holds of
  several steps and functions together.
- `app/` is ordinary Rust: it performs the effects (the cache, the provider, the
  application behind the layer) and turns results into responses.
- `tests/` runs the library with the crates that it calls.

The modules of `src/`:

| module | what it holds |
|---|---|
| `text`, `clock`, `error`, `effects`, `reply` | values, and what flows ask for and give |
| `config`, `builder`, `discovery` | the configuration and how it comes about |
| `cookies`, `jar` | the session cookie and the encrypted jar it travels in |
| `session`, `token_request` | sessions, and requests to the token endpoint |
| `router` | the login, callback and default routes, and which one a request takes |
| `logout` | the two kinds of logout |
| `extractors` | the session of a request, renewed where it has expired |
| `outside` | calls into other crates and std that compute on plain values |
