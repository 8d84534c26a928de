# random_chains

A simulation that draws samples of values from power-law distributions, stops
each sample once its total exceeds a budget (but never before its minimum size
nor after its maximum size), and scores the replicas with Welford's algorithm
or with sums of squares.

- `src/` is the verified library: the choice of the score method by name
  (`config.rs`) and the rule that decides which draws a sample keeps
  (`sample.rs`), with the laws of that rule.
- `app/` is the program: command-line parsing, random draws, the floating-point
  statistics and the theoretical expectation (GSL), and printing.
- `tests/` exercises the library.
