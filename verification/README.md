# calrs SMS notifications

Guest SMS for calrs bookings: a confirmation, cancellation, reschedule or
reminder text sent through one of four gateways (Twilio, GatewayAPI, seven.io,
or a generic webhook).

The crate is a Verus library. Everything that decides something is in `src/`
and verified against its contract:

- `sms/factory.rs`: the gateway registry, configuration validation, endpoint
  resolution and adapter construction.
- `sms/phone.rs`: E.164 checks, normalisation of guest-typed numbers, the
  country calling code table.
- `sms/message.rs`: message bodies, title and body length limits, GSM-7 /
  UCS-2 segment estimates.
- `sms/twilio.rs`, `sms/gatewayapi.rs`, `sms/sevenio.rs`, `sms/webhook.rs`:
  the request each gateway expects and the meaning of each reply, normalised
  onto `SmsError`.
- `sms.rs`: configuration from the environment or a stored row, the admin
  status view, booking contexts.
- `i18n.rs`: the Fluent catalogues and their formatting through
  `fluent_bundle`.
- `text.rs`: string helpers with exact specifications.

Calls into outside crates (`fluent_bundle`, `http`'s status reason phrases,
`hmac`/`sha2`/`hex`, and `Debug` quoting) sit behind small trusted wrappers
whose contracts name what they return.

`app/` holds the I/O: HTTP through `reqwest`, the process environment, the
`sms_config` table through `sqlx`, JSON through `serde`, and logging.
`tests/` exercises the library with the real outside crates linked.
