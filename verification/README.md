# coupon_api_server

The rules of a stamp-card and coupon service, written in Verus and proved against their
contracts.

- `src/` is the verified library.
  - `loyalty`: stamp policies and their validation, the spending plan that pays for
    rewards from the soonest-expiring stamps, the stamp board, and the accrual and
    reversal decisions.
  - `jobs`: job identity and advisory locks, statuses, retry classification and the
    backoff schedule, and the batch decisions of the issuing and revoking workers.
  - `notifications`: consent and quiet-hour rules, template rendering and escaping,
    provider replies and callbacks, and webhook signature checks.
  - `http`: optimistic concurrency, idempotency, pagination tokens, rate limiting,
    request ids, origins and credentials, the success envelope, readiness and process
    metrics.
  - `privacy`: erasure scopes, the order an erasure acts in, pseudonyms and holds.
  - `validation`: the length and range rules request bodies are checked against.
- `tests/` exercises the library on concrete values.
- `app/` is the HTTP process: the liveness probe and the metrics scrape, request ids and
  latency recording, and the JSON forms of the library's types.

Outside crates are called from the library through small trusted functions whose
contracts say what the crates document: `uuid` for identifiers, `sha2` and `hmac` for
digests and signatures, `base64` for pagination tokens, `chrono` and `chrono-tz` for
calendar time, and `rand` for backoff jitter.
