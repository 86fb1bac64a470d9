# leadsnebula_api

The decision logic of the LeadsNebula lead-routing API, written in Verus and
proved against its contracts.

- `src/` is the verified library. Each module holds the rules of one part
  of the API: lead submission answers and statuses (`leads`), the Pulsar
  qualification endpoints (`pulsar`), login and OTP sign-in (`auth`),
  account security (`security`), the WebAuthn challenge store
  (`webauthn_challenge`), the dashboard's update planners (`buyers`,
  `publishers`, `campaigns`, `ping_trees`, `rule_sets`), listings and lead
  details (`lead_views`), audit records (`audit`), health reports
  (`health`), the instance a new record belongs to (`tenancy`), planned SQL statements (`sql`), text helpers (`text`) and the
  calls into encoding, hashing, UUID, URL and random-number crates
  (`codec`).
- `tests/` runs the library on concrete values.
- `app/` is the HTTP layer: axum handlers that read requests, the database,
  the cache and the parameter store, call the library for its decisions
  (those on floating-point amounts and timings are made there) and write
  the answers.
