# pylibgrit

Python bindings over [grit-lib](https://crates.io/crates/grit-lib), a Git
implementation in Rust, with the bindings' own logic proved correct with
Verus.

- `src/` is the verified library: object ids, signatures and parsed objects;
  ref-name validation and the create-only / compare-and-swap rules for ref
  writes; the exact bytes of new commit and tag objects; reflog requests;
  tree diffs and `--numstat` statistics; merge conflict bookkeeping; checkout
  planning; config lookups; push and fetch planning and reports; and how
  every failure is classified. Calls into grit-lib that only compute (parsing,
  serializing, ref-name checks, line counting) sit behind small trusted
  wrappers whose contracts say what grit-lib's source shows.
- `tests/` exercises the library on concrete values.
- `app/` is the pyo3 extension module: it reads and writes the object
  database, refs, index, config and work tree, talks to remotes, and converts
  between Python, grit-lib and the library's types.
