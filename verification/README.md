# jimmy

A permissioned desktop companion for Hyprland: an HTTP service that lets an
agent lock the session, open URLs, start allowlisted applications, focus
windows, switch workspaces and take screenshots, and nothing else. Requests
are authenticated with HMAC-SHA256; sensitive actions wait for the user's
confirmation, which must come within a time-to-live and counts once.

Layout:

- `src/` is the library, verified with Verus:
  - `auth.rs`: request signatures (HMAC-SHA256 via `hmac`/`sha2`, hex via `hex`);
  - `actions.rs`: the action policy, from a request to a command plan;
  - `service.rs`: the service state, the confirmation queue and the handlers;
  - `clock.rs`: RFC 3339 timestamps and the expiry test (via `chrono`);
  - `config.rs`: the configuration and its defaults;
  - `upstream.rs`: chat requests to Ollama and upstream failure texts;
  - `presence.rs`: presence-detector settings and its hysteresis;
  - `wake_ui.rs`: the wake UI state;
  - `numbers.rs`, `text.rs`: integer parsing and small text operations.
- `app/` holds the three programs (backend, presence detector, wake UI):
  HTTP with axum, the camera with OpenCV, process execution, the clock.
- `tests/` runs the library on concrete values.
