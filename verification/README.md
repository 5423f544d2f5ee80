# component-slot-extractor

Extracts typed slot values (string, enum, number, date, boolean) from a user
utterance, as a Greentic component.

- `src/` is the verified library (Verus):
  - `lib.rs` – the public types, their mathematical views, and `extract_slots`.
  - `extract.rs` – per-type extraction, default coercion and `extract`, with
    contracts stated over spec functions of the utterance and definitions.
  - `text.rs` – whole-word search; wrappers for Unicode lowercase and
    alphanumeric tests.
  - `pattern.rs` – regex compilation and capture through the `regex` crate.
  - `dates.rs` – date parsing through `chrono` and ISO 8601 rendering.
  - `component.rs` – the component's schemas, metadata and description, and
    their canonical CBOR through `greentic-types`.
  - `payload.rs` – the JSON description payload, rendered through
    `serde_json`.
  - `laws.rs` – properties that span definitions and calls.
- `tests/` exercises the library with the outside crates linked.
- `app/` holds the payload forms with serde derives, JSON/CBOR handling and
  the QA spec.
