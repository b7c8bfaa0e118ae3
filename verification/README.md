# r2ta

Analysis of ROS 2 traces: the dependency graph between publishers,
subscribers, timers, services and callbacks, built event by event, with the
latencies and delays measured along its edges; its drawing as a graph; the
series exported per element; and the plots and charts drawn from them.

Layout:

- `src/` is the library, verified with Verus. `dependency_graph.rs` models
  the graph and the effect of each trace event as spec functions and states
  the laws over them; `graph.rs` is the executable graph that follows that
  model; `exports.rs`, `dot_graph.rs` and `dot_text.rs` derive the exported
  series, the drawing and its DOT text (edge thickness by latency; no
  colour gradient is part of the library, so edges are never coloured); `binning.rs`, `plotting/` and `charting/` compute histogram bins,
  axis ranges and units; `sql_store.rs` frames the stored series and
  encodes their samples with postcard.
- `tests/` runs the library on concrete traces and values.
- `app/` is the command-line program: argument parsing, the SQLite store,
  rendering with plotters and the edge thickness, around the library.
