# perf_tester

Starts two desktop applications, samples their CPU, memory, disk, GPU and network use
once a second until either exits, and writes markdown, JSON and chart reports that
compare them.

- `src/` is the verified library (Verus): the choice of applications from the
  configuration, shortcut resolution, the sampling histories, the parsing of counter
  output, and the layout and texts of the reports.
- `app/` is the program around it: environment, child processes, sleeping, files,
  `f32` averages, JSON and chart drawing.
- `tests/` exercises the library.
