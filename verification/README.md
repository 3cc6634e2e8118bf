# reportmate

The verified core of `reportmateutil`, the ReportMate admin command line.

`src/` is the library, verified with Verus:

- `query` — percent-encoding and the query-string builder.
- `routes` — the request each command sends (method, path and query, JSON
  body, extra headers) and how its answer is shown.
- `resolve` — endpoint and credential resolution as a state machine: it says
  which file or helper program to read next and what follows from each
  answer; the caller performs the lookups.
- `config` — the configuration a resolution gives, and the parsers for what
  the lookups return (`connection.json`, `reg query` listings, helper output).
- `client` — request headers and URL, and how a response's status, content
  type and body are read.
- `output` — device and event tables, pretty JSON, the `config` report.
- `error` — every failure and its message.
- `json` — the calls into `serde_json`, with what each is trusted to return.
- `laws` — properties of the library as a whole, proved over the contracts.

`app/` is the program around it: argument parsing with clap, the
environment, files and helper programs, HTTP with reqwest, and drawing
tables with comfy-table.

`tests/` runs the library on concrete values, including every documented
command line and the request it sends.
