# cimishi

A command-line tool that fetches RDF data (local disk, S3, Azure Blob
Storage, Google Cloud Storage), decompresses ZIP and GZIP archives in
memory, filters files by name, runs a SPARQL query over them with Oxigraph
and writes the results as CSV, JSON, tab-separated text and a metadata
report.

The library under `src/` is verified with Verus:

- `config` — the configuration document tree, the TOML/YAML/JSON parsers
  that produce it, and the decoding into typed pipeline configuration.
- `glob` — shell-style name patterns.
- `sources` — which files and objects a source takes and what it calls
  them (the filesystem and object stores are read by the caller).
- `processors` — the decompress and filter processors.
- `query` — loading files into an Oxigraph store and running a query.
- `output` — the text of each output format and the names of the files.
- `pipeline` — gathering fetched files, running the processors in order,
  and the query stage.
- `paths`, `interactive`, `wizard` — where files are kept, the saved
  configurations offered in the interactive menu, blueprints, the example
  project and the configuration wizard.

`app/` holds the program around it: the command line, the filesystem,
network and object-store access, and the interactive prompts.
