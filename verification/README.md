# keplerian

Two-body Keplerian dynamics: anomaly solvers, classical elements, two-body
propagation, transfer helpers and a Lambert transfer-grid search.

## Layout

- `src/` — the verified library (Verus). It holds the parts of the library
  that do not compute on floating-point values, each with a contract:
  - `eccentricity` — `ConicRegime` and the rule that classifies an
    eccentricity from its comparisons against `1` and the parabolic band;
  - `iteration` — the iteration budget of every solver loop: at most
    `max_iter` iterations, early exit on convergence or break, and
    exhaustion reported only after the full budget ran;
  - `validation` — the order in which input checks are reported: the first
    failed check decides the error;
  - `search` — the Lambert grid search: one cell per departure and flight
    time, row-major, with provider failures reported before solver failures.
- `app/` — the floating-point kernels (anomaly conversions and solvers,
  element/Cartesian conversions, propagation, transfer helpers) on `qtty`
  and `affn` quantities. They call the verified library for the rules above.
- `tests/` — tests of the verified library.
