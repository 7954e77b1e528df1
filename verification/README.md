# http_server_rs

An HTTP backend that keeps CV documents encrypted and hands them out to whoever
holds the access key, split in two:

- `src/` is the verified library (Verus). It holds the settings types, the
  domain values (e-mail addresses, user ids, session tokens), the error model
  with its HTTP status, code and message, the key derivation (Argon2id) and
  authenticated encryption (AES-256-GCM) of stored documents with their base64
  storage format, the unlocking of a stored CV, the cache key layout, the
  rate-limiting decisions (an in-memory limiter with per-group presets, and the
  verdicts of the cache's counting script), and the database connection string.
  `src/trusted/` is the boundary: each item there calls std or an outside crate
  and states what is believed of it.
- `app/` is the server around it: settings loading, logging, MongoDB and Redis
  access, the axum router and middleware, and the JSON bodies.

Main properties proved in `src/`:

- what `CryptoUtils::encrypt` and `AesCryptoService::encrypt` give, decryption
  with the same password turns back into the data, whatever the random salt
  and nonce;
- an object id written in hexadecimal parses back to the same id;
- the in-memory limiter never counts a client above its group's limit, lets at
  most that many requests through in one window, refuses an exhausted client
  until its window has passed, and leaves other clients' counters alone.
