# rusty_cdb

A library for reading, writing and validating datastores that follow the
OGC CDB 2.0 Core standard, with its rules written as executable Rust whose
behaviour is stated in `requires`/`ensures` contracts and proved by Verus.

## Layout

- `src/` — the verified library, one module per requirements module:
  naming rules and style guides (`naming`), the folder hierarchy
  (`hierarchy`), links and media types, metadata vocabularies, mandatory
  elements and RFC 3339 temporal values (`metadata`), the WKT-2 reader and
  the storage-CRS rules (`crs`), attribute models (`attribution`), grid
  enumerations (`coverage`), geometry type codes and the geometry checks
  (`geometry`), the datastore handle with its creation and write
  decisions (`datastore`), and the conformance report with the validator
  (`conformance::validate`: the visiting order of the walk and every stage
  of a validation run, from the facts found on disk), the declaration
  checks, the attribution stage and the content sweep (`conformance`).
  `text` and `messages` hold the character and message helpers the rest is
  built on.
- `tests/` — the test suite, run against the compiled library.
- `app/` — what the library leaves to its caller: listing folders and
  reading and writing files for a validation run or a new datastore,
  JSON/XML decoding with serde and quick-xml, floating-point coordinates
  and units, and Simple Features geometries on `geo-types`.

Laws of the library stand as public proof functions next to the code they
speak of, for example `crs::canonical::reread_of_canonical_form` (the
canonical WKT-2 form of a tree read from text reads back as that tree) and
`conformance::report::warnings_never_affect_conformance`, and
`conformance::validate::runs_stop_only_on_io_failures` (a validation run
yields a report, conformant or not, unless reading the datastore failed).
