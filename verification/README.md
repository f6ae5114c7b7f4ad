# jars

A rate-limiting reverse proxy. Each request path is limited to a number of
requests per minute, measured as a moving average over the current and the
previous minute, with the counters kept in Redis. Admitted requests are
forwarded to the configured base path with `X-Forwarded-For` set; refused ones
get the configured error page with status 429.

Layout:

- `src/` is the verified library (Verus):
  - `ratelimit`: counter keys, the admission decision, the clock;
  - `forwarding`: the `X-Forwarded-For` header on an `http::HeaderMap`;
  - `handling`: the decisions taken for one request, step by step;
  - `settings`: validation of the settings read at start;
  - `config`: runtime configuration values and providers;
  - `decimal`: decimal text of counters' minutes.
- `app/` is the service around it: the hyper server, the Redis store, the
  settings loader and the Etcd watcher.
- `tests/` exercises the library.
