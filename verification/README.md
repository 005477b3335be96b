# Groupify

The decisions of the Groupify API server as a verified library, and the server around it.

The library (`src/`) computes on plain values. Whatever has to be asked of the outside
world (the database, Apple, the payment service, the clock that a token's expiry is
counted from) is an action that a step hands out and an event that the next step takes.

| Module       | What it decides                                                       |
|--------------|-----------------------------------------------------------------------|
| `oauth`      | the clients of the providers, the Apple client secret, sign-in URLs   |
| `exchange`   | trading an authorization code for tokens at Apple                     |
| `profile`    | fetching a user's profile from a provider                             |
| `session`    | finding or creating the user and storing the session                  |
| `apple_auth` | where a browser is sent, mobile browsers, identity tokens             |
| `sign_in`    | the course of a sign-in with Apple, from a browser or a mobile device |
| `invoices`   | the invoices of a user                                                |
| `metrics`    | what is measured of each HTTP request                                 |
| `telemetry`  | where traces are exported, and by which protocol                      |
| `errors`, `json`, `text` | what the others share                                     |
| `outside`    | the calls into other crates, with the contracts that are taken on trust |

Each step of a conversation has a function `accepts` that says whether an event fits, and
a function `step` that may be called where it does. Proof functions named `law_…` state
what holds across functions and over whole conversations.

The server (`app/`) performs the actions, reads the environment and serves the routes.
