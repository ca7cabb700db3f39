# uhyve_interface

The hypercall interface between a Hermit guest and the Uhyve hypervisor, verified
with Verus.

- `src/parameters.rs` and `src/v3/parameters.rs`: the parameter blocks of the
  hypercalls and the encoding of their return values. `from` decodes a signed
  return value into a result enum and `try_as_num` encodes it back; the round trips
  between the two, and where they stop, are proved as lemmas in the same files.
- `src/nonzero.rs`: `NonZeroU32` and `NonZeroU64`, the errnos and counts that a
  result carries.
- `src/gdb/resume.rs`: how a vCPU resumes under the debugger.
- `src/xtask/`: the patch step of the developer tool, which points a Hermit
  kernel's `Cargo.toml` at this crate through `[patch.crates-io]`. The TOML
  editing itself is done by `toml_edit`; its outcomes are named by specification
  functions of the manifest text.
- `app/main.rs`: the developer tool's command line and file handling.
- `tests/`: tests of the library on concrete values.
