# Intake Desk API

The server side of Intake Desk: receiving teams record supplier deliveries against
purchase orders, attach evidence, finalize hash-linked receipts and add corrections,
each inside a tenant-scoped site whose writes need an active entitlement.

## Layout

- `src/` is the library, verified with Verus. It holds every rule of the service:
  who may act on which site (`admission`, `tenancy`, `entitlement`), sign-in
  (`identity`, `signin`, the RS256 token check included), the audit chain (`audit`, `digest`, `finalize`,
  `correction`), evidence (`evidence`), request validation (`records`), response
  policy and configuration (`service`, `problem`), and the text and clock helpers
  they share (`text`, `clock`). Work that needs storage or the network is described
  by small state machines whose steps name the action to perform next.
- `app/` is the HTTP service around it (axum, SQLite, the identity provider's keys):
  it performs the actions the machines ask for and hands the results back.
- `tests/` runs the library on concrete values.
