# nektar

A command line client for the Apache Hive metastore, with its decision logic
verified by Verus.

- `src/` is the library. `cli::Cli::run` is a state machine: given the stage a
  run has reached and the outcome of the last action, it returns the next
  stage and the next action (connect, make a metastore call, read the clock,
  read a table definition, ask the user, write a document, finish).
  `laws.rs` proves properties that hold of every run.
- `app/` is the program around it: argument parsing, the Thrift connection and
  calls, the terminal, the clock, files and document writing.
- `tests/` drives the state machine through whole runs.
