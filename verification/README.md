# aopmem

The verified core of the `aopmem` command line interface, written in Verus.

The library (`src/`) holds the parts of the command line that decide and compute:

- `args`, `codes`: the checks on command line values and the fixed exit codes and limits;
- `cursor`, `pagination`, `listing`: opaque keyset cursors, the validation of every list
  page, page-by-page collection of whole lists, and the JSON data of list pages;
- `error`, `failures`, `tools`, `artifacts`: the catalogue of structured errors, and how
  service failures map onto it;
- `envelope`, `plain`: the JSON envelope every `--json` command prints, and the plain text
  of a failed artifact cleanup;
- `event`, `observation`, `observed`: Local Observability events, the per-command
  observation state (one collector, one latched warning, one frozen duration, one recall
  bundle) and the writes each command hands to the collector;
- `recall`, `recall_facts`: the continuation state of task recall and what a recall page
  reports;
- `commands`, `bundle`, `text`, `outside`: command ids, `remember` input, recall bundle
  ids, decimal text, and the calls into `serde_json`, `rusqlite` and `std` that the
  library relies on.

Work that needs the outside world (reading and writing the workspace store, running
tools, the observability database, printing) is done by the caller: functions such as
`CommandObservation::record` and `PageCollector::accept` return what is to be written or
fetched next, and the caller performs it.

`app/main.rs` is the command line program: its `clap` definitions, the checks a command
makes before it opens a workspace, and printing.
