# tauri-wd

A W3C WebDriver server for Tauri applications, with its logic written and verified in Verus.

The **driver** (`tauri-wd`) takes WebDriver commands from clients. It launches the application,
reads from the application's output on which port its plugin listens, and turns each command into
requests to the plugin. The **plugin** lives in the application and turns those requests into
scripts for the application's webview.

- `src/driver/`: sessions, elements and shadow roots, and every command as a sequence of steps: a
  request to the plugin, a file to read, or the reply. `request::begin` takes the first step,
  `answer::resume` and `answer::resume_upload` the next ones.
- `src/plugin/`: the scripts for each request, how they are wrapped and run in frames, what their
  results mean, and the ticks of input actions.
- `src/laws/`: what holds of the driver and the plugin as a whole.
- `src/value.rs`, `src/json.rs`, `src/document.rs`, `src/text.rs`: JSON values and text.
- `src/outside.rs`: the outside functions that the library calls, with the contracts that are
  taken on trust.
- `app/`: the servers around the library: HTTP, processes, files, and the windows of a Tauri
  application.
- `tests/`: tests of the library.

The floating-point parts of window geometry stay in `app/`. A JSON number with a fraction is held
in the library by its decimal texts.
