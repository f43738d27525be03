# cast_checks

Checked numeric casts, with proved contracts.

A cast `expr as T` is checked by converting `expr` with `TryInto<T>` where
such a conversion exists (`MaybeTryInto::maybe_try_into`), and by keeping the
plain `as` cast where it does not (`MaybeTryIntoFallback`). A conversion that
fails is an invalid cast, reported with the message "invalid cast".

- `src/` is the verified library: the conversion, the rule that decides
  which casts are checked (not in release builds without the `release`
  feature, not for `as _`, not for types that hold a trait object), the
  messages and log lines, and the search for the test executable among the
  artifacts of a build.
- `app/` reads tokens with `syn`, the environment and processes, and hands
  the library plain values: `expand::enable` rewrites the casts of an item,
  `setup::run` prints the build directives, `ci::run` builds and runs the test
  suite.
- `tests/` runs the library on concrete values.
