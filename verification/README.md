# maple_worldline

The self-producing substrate of the WorldLine runtime, as a Verus library.
The functions in `src/` carry contracts that Verus proves, except six
trusted wrappers around outside crates, whose contracts are believed:
`fresh_uuid`, `now_millis` and `now_nanos` (`src/platform.rs`: a random
UUID, of which only its length is stated, and the clock, of which
nothing is stated) and `receipt_payload`, `sha256_hex` and `rfc3339`
(`src/consequence/receipt.rs`: JSON printing, SHA-256 and RFC 3339
formatting, whose results are named rather than spelled out).

- `src/evos` — subsystem inventory, cycle phases, health reports.
- `src/intent` — intent identifiers, proposals, structural validation.
- `src/commitment` — observation periods, the commitment lifecycle, the
  commitment engine and the mapping of changes to declarations.
- `src/consequence` — execution of approved commitments, receipts,
  rollback and feedback.
- `src/compiler` — the WLIR model, optimization passes, code generators,
  strategies, artifacts and the compiler pipeline.
- `src/deployment` — deployment records, rollback and the deployment engine.
- `src/hardware` — EPU design, HDL generation, simulation and governance.
- `src/conformance` — the safety-invariant inventory, runs and reports.
- `src/bounded.rs`, `src/text.rs`, `src/platform.rs` — bounded histories,
  decimal and hexadecimal text, and the clock and random identifiers.

`app/` holds what the library does not: error types with
`std::error::Error`, serialized forms, and decisions over real-number
measurements. `tests/` exercises the library from outside.
