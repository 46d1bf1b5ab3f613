# genmeta_xtask_release

Plans and publishes releases of packages for Debian, RPM, Homebrew and Scoop from one
release contract.

- `src/` is the library. It validates contracts, plans builds and publications, reads and
  checks manifests, and renders what the package systems need. Every function has a
  contract. Verus proves all of them but those of the few functions that do nothing but call
  another crate or a part of `std`: these are believed. `src/laws/` states and proves what
  holds of the library as a whole.
- `src/building.rs` and `src/publication.rs` decide on every step of a build and of a
  publication: a step names an action, and the answer to it leads to the next step.
- `app/` performs the actions: it reads the command line and TOML files, runs scripts and
  containers, and talks to S3-compatible storage.
- `tests/` runs the library on concrete values.

The library calls `semver`, `debversion`, `rpm-version`, `sha2` and `serde_json`. What is
believed of each of them stands in the contract and the doc comment of the one function
that makes the call. Paths are read as on Unix hosts.
