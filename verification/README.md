# rdr-compose

The compose tools of Radar Router (rdr), with their logic verified by Verus.

- `src/compose.rs`: the compose file and the numbering of ports as node attributes.
- `src/model.rs`: executables, Python environments, and the command lines that start them.
- `src/ports.rs`: the port each output publishes on and the port each linked input subscribes to.
- `src/editor.rs`: the state of the graphical editor and what each control does to it.
- `src/pycheck.rs`: the report of the editor's Python environment test.
- `src/text.rs`: splitting, prefix tests and trimming of text.
- `src/transport.rs`, `src/detection.rs`: message payloads and the kinds a detection names.
- `app/`: the command line, the egui editor, process spawning, conda lookup and the
  ZeroMQ publisher/subscriber traits.
