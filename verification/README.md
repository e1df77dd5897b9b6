# whatmedoin

A small activity tracker: a daemon that looks, every few minutes, at which
program has the focus and posts it to a server.

`src/` is the verified library (Verus):

- `text` — Unicode white space, trimming, decimal writing and `i32` parsing;
- `pidfile` — what the daemon writes into its pid file and how it is read back;
- `event` — the reports and their JSON framing (strings and numbers written
  by `serde_json`);
- `monitor` — the monitor loop as a state machine: event in, next action out;
- `control` — the subcommands, and the decisions of `start` and `stop`;
- `windows` — the PowerShell commands and paths of the Windows build.

`app/` holds the three command line tools around it: arguments (clap), files,
processes and signals, the window system (x-win) and the network (reqwest).
