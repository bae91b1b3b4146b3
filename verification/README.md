# muster

The core of a terminal workspace that runs coding agents and development
processes side by side, written in Verus: executable Rust whose behaviour is
stated in `requires` / `ensures` contracts and proved.

## Layout

- `src/` is the verified library. `App` (in `src/app.rs` and `src/app/`) is a
  state machine without I/O: it takes events and answers, and hands out effects.
  Each of its methods is specified by a transformer of `AppModel`, its
  mathematical model. The other modules hold what it is made of: the workspace
  and its configuration, the reconciliation of a changed configuration, process
  lifecycles, forms, overlays, input encoding, the terminal screen, selections
  and agent sessions.
- `tests/` runs the library. `tests/app_flow.rs` holds an in-memory host.
- `app/` is ordinary Rust around the library: the event loop, drawing, the host
  terminal's colors and clipboard. What starts processes and keeps files is
  handed in through the trait `Ports`.

## How the host talks to the library

1. `observe` tells the application what the host knows: sessions, projects,
   drawn names.
2. An event is handed in with `handle_event` or `handle_input`.
3. `take_effects` gives the effects to carry out, in order. Those that are
   questions are answered with `answer`, in the order in which they were asked.
4. `run_next` goes on with what is left to do, until it says that nothing is.

## What is trusted

The terminal engine (`alacritty_terminal`, with `crossbeam-channel` for its
events) stands in `src/engine.rs`, the layout solver (`ratatui`) in
`src/geometry.rs`, the line editor (`tui-input`) in `src/form.rs` and the name
generator (`fake`) in `src/names.rs`, each behind wrappers whose doc comments say
what is believed of them. `src/input.rs` and `src/text.rs` each believe one
function of the standard library.
