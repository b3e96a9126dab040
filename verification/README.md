# krill

A terminal orchestrator for swarms of TinyFish browser agents, with its
decision-making core written in Verus and proved.

- `src/` is the verified library:
  - `sse`: framing of the `text/event-stream` body of a run (lines, fields,
    dispatch), proved independent of how the body is cut into chunks;
  - `tui`: agent status, the bounded agent log, the dashboard state and its
    keyboard navigation;
  - `swarm`: what each worker reports on each event of its run, how reports
    update the dashboard, the output of a single run, the URL list and the
    data handed to the analysis;
  - `dashboard`: the texts, colours and counts the dashboard draws;
  - `analyze`: the chat-completion request for the report and the reading of
    the report from the reply;
  - `types`, `error`, `text`, `terminal`: API types, the error type, string
    helpers and the terminal guard.
- `app/` is the command-line program around it: argument parsing, HTTP,
  JSON (de)serialisation, the tokio workers, and drawing with ratatui.
- `tests/` runs the library on concrete inputs.
