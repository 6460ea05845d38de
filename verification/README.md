# hoags_tools

Tools for federal-contracting paperwork, with their logic verified by Verus.

- `src/` is the verified library, one module per tool:
  `actionminer` (action items and deadlines in meeting notes),
  `clauseguard` (FAR/DFARS clause risk in contract text),
  `docconv` (CSV/JSON conversion, page ranges, PDF text tables),
  `invoicer` (invoice numbers, billing windows, invoice status),
  `mailcraft` (contracting e-mail drafts),
  `mousecontrol` (scripted mouse and keyboard steps),
  `propbuilder` (solicitation details, cover-letter wording, text wrapping
  for proposals),
  `receipts` (expense categories),
  `screenreader` (capture scripts, window lists, change watching),
  `sheetwise` (spreadsheet typing, filtering and reshaping),
  `sigstamp` (signature labels, page ranges, PDF string escaping, text
  literals of content streams),
  `davalive` (suite health and statistics) and
  `hoags_core` (the event bus records and the connector agents'
  decisions). `calendar`, `pattern` and `text` hold the shared date,
  regular-expression and string layers.
  Calls into `regex`, `chrono` and `serde_json` go through a few trusted
  wrappers whose contracts are stated next to them.
- `app/` is the command-line program around the library: SQLite storage,
  files, PDF drawing with `lopdf`, PowerShell, the clock and the
  environment, and every computation done in floating point.
- `tests/` exercises the library on concrete inputs.
