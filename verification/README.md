# xbox

Xbox Live authentication, gamertag/XUID resolution and expiry-aware credential caching,
written in Verus.

- `src/` is the verified library: the `xuid(123)` identifier format, the single-flight
  expiry cache and its per-key variant, reading the Microsoft login page and its redirect,
  people-search URLs and result matching, the 401 retry policy, and the response models.
  Times are microseconds since the Unix epoch.
- `app/` is the asynchronous client around it: the HTTP exchanges with Xbox Live (`reqwest`),
  the locks and channels through which concurrent callers share one refresh (`tokio`), and the
  JSON shapes of the responses (`serde`).
- `tests/` exercises the library on concrete values.
