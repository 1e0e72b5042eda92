# metering

German energy-metering domain logic with its contracts proved by Verus:
market identifiers (MaLo, MeLo, BDEW-Codenummer, EIC), OBIS codes, the coded
vocabularies of the market, the Berlin calendar of settlement days and gas
days, statutory holidays, and the billing arithmetic on exact decimals —
billing periods and peak demand, allocation keys, § 14a EnWG minimum power,
gas conversion (DVGW G 685), warm-water heat (HeizkostenV § 9), grid losses,
Mehr-/Mindermengen, gas load-profile quantities and annual forecasts.

## Layout

- `src/` — the verified library. Its functions state what they return in
  `ensures` (with a `requires` where the input is restricted), apart from a
  few that compare or copy values; laws that relate several functions are
  public proof functions (`lemma_…`).
- `src/decimal.rs` — `Dec`, the value set of `rust_decimal::Decimal`: a
  mantissa, a scale and the sign flag, which a zero keeps (`-0`). In
  contracts a decimal's value is an integer count of `10^-28` (its `units`),
  and rust_decimal's own arithmetic runs behind a few trusted wrappers whose
  contracts state what its source shows: the exact result where a few lines
  state it (rounding, the text `Display` writes), and otherwise a name for
  the result with the cases in which it is exact.
- `src/calendar.rs` — proleptic Gregorian dates and the Europe/Berlin offset,
  the latter through trusted wrappers over `time` and `time-tz`.
- `src/text.rs`, `src/error.rs` — trusted wrappers over the `str` methods
  and the `Debug` quoting the library's messages use.
- `tests/` — the test suite, run against the compiled library.
- `app/` — what stays outside the verified core: conversions to and from
  `rust_decimal` and `time` values, `Display`/`Error` for the error types,
  and the floating-point parts (the SigLinDe gas profile function, the SLP
  dynamization polynomial, the forecast's prediction interval, coverage
  percentages).

## Conventions

A function whose decimal arithmetic can overflow states, in its `requires`,
the inputs on which rust_decimal computes it, and has a `checked_` (or
`try_`) companion without that `requires` that returns `None` where it
would overflow. Instants are Unix seconds; calendar dates are
`CalendarDate`.
