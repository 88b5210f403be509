# tms_provider

A service that tells the holder of an access token which resources its
account may use.

- `src/` is the verified library (Verus): the configuration values, the
  error model and the JSON replies sent for errors, the data sources (the
  empty one and the one read from a file, whose listing of resources is
  proved against a model), the rules of authentication and the start-up
  banner.
- `app/` is the program around it: reading the configuration and the
  resources file, the token validator, and the HTTP server.
- `tests/` runs the library on concrete values.
