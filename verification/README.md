# ai_api_gateway

An HTTP gateway in front of AI model providers. A request names a model in
its JSON body; the gateway looks up the providers that serve that model,
picks one at random, adds the provider's authentication (each provider in the
TOML file names its own; a header's secret is read from the environment or a
file), and forwards the request. Providers stored in the database table carry
no authentication method and are reached without one.

`src/` is the library, verified with Verus:

- `data`: providers, models and their many-to-many relation, and the
  repository queries over a TOML file's contents.
- `secrets_loaders`: references to secrets, the environment, file and
  composite loaders, and adding authentication headers.
- `headers`: the `http` header types that authentication writes into.
- `model_extractors`: reading the requested model from a decoded body.
- `gateway`: the forwarding decisions (errors and their status codes, the
  upstream URL, provider choice, upstream headers), the startup report and the
  terminal animation.
- `config`, `requests`, `random`: configuration types, the request context,
  and the random draws.

`app/` is the server around it: reading files, the environment and the
database, decoding JSON and TOML, telemetry, and the axum routes.
