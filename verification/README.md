# realty_api

The rules of a real-estate sales back office (contracts and their installment
schedules, payments, commission splits and releases, salaried employees, the
lot pricelist, rate configuration and the role-based portals), written as a
Verus library whose functions carry `requires` / `ensures` contracts proved by
Verus.

- `src/` is the verified library. Each request check returns a `Result` whose
  error, an `ApiError`, carries the HTTP status and message of the refusal;
  the contracts say exactly which inputs are refused with which error.
  Calendar arithmetic (`dates`, `periods`, `schedule`) calls `chrono` through
  small trusted wrappers; identifiers call `uuid` the same way.
- `tests/` runs the library on concrete values.
- `app/` holds the HTTP handlers: sessions, SQL through `sqlx`, JSON through
  `serde`, and the amount arithmetic done in floating point. Every decision a
  handler makes goes through the library.
