# greptime_common

Verified pieces of GreptimeDB's common crates and pipeline, written in Verus.

- `src/instruction.rs`: region ids, the instructions the metasrv sends to datanodes and
  their replies, and how each prints.
- `src/procedure_error.rs`, `src/status_code.rs`: procedure errors, the status code each
  reports, and which codes are worth retrying.
- `src/system.rs`: the function registry and the registration of the system functions.
- `src/logical_plan.rs`: aggregate function signatures and the projection that renames
  plan columns.
- `src/decolorize.rs` with `src/ansi.rs`, `src/pipeline.rs`, `src/value.rs`, `src/yaml.rs`:
  the pipeline processor that strips ANSI color codes from event fields, and its
  configuration.
- `src/text.rs`: decimal and debug renderings used by the printing functions.

`app/` holds what Verus does not check: the serde forms of the instructions, the
asynchronous peer lookup trait, and the conversion of `yaml_rust` documents.
