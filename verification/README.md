# yfinance_mcp

An MCP server exposing Yahoo Finance data as tools, built around a library
verified with Verus.

- `src/` is the verified library:
  - `text`: decimal text of integers and the reading of unsigned decimal settings;
  - `markdown`: the titled JSON block and the escaped Markdown tables of the tools' answers;
  - `report`: the HTML stock report;
  - `clock`: calendar days of millisecond timestamps and option expiration dates (through `chrono`);
  - `request`: lookback ranges and bar intervals;
  - `tools`: the tools' arguments, titles and table rows;
  - `settings`: client settings, HTTP port and addresses, and the HTTP front end's decisions.
- `app/` is the program: environment, Yahoo Finance requests, JSON serialization,
  the MCP transports, and the reading of floating-point figures for the report.
- `tests/` exercises the library on concrete values.
