# backtester

A tick-replay trading simulation. The verified library (`src/`) holds the
logic, each function with a contract proved by Verus:

- `data_loader`: raw trade times `HHmmssffffff` to elapsed micro-seconds,
  with the decomposition and order-preservation laws;
- `strategy`: the buy and sell schedules of a dollar-cost-averaging
  strategy (at most one order per period, none before the schedule starts,
  a new period re-arms it), and the choice of the security to buy;
- `market`: the replay feed that publishes the sorted tick table in order
  and the wait before each tick;
- `simulation_builder`: trader naming and the readiness test;
- `logger`, `trader`: orders and the text under which they are logged.

`app/` is the program around it: reading the parquet tick table, the tokio
tasks and channels, the money rules on floating point, and the log viewer.
