//! Messages that the event loop processes.

use vstd::prelude::*;
use crate::app::pointer::PointerFacts;
use crate::app::signals::ProcessOutput;
use crate::config::WorkspaceConfig;
use crate::effect::Reply;
use crate::generation::CompletionGeneration;
use crate::input::{KeyEvent, MouseEvent};
use crate::process::PaneId;

verus! {

/// What the user does at the terminal.
pub enum InputEvent {
    /// A key.
    Key {
        /// Key.
        key: KeyEvent,
        /// How the extended keyboard protocol codes it for the selected
        /// terminal, if it does.
        escape: Option<u32>,
    },
    /// Pointer input.
    Mouse {
        /// Input.
        mouse: MouseEvent,
        /// What is drawn under the pointer.
        facts: PointerFacts,
    },
    /// Pasted text.
    Paste(String),
    /// The terminal has another size.
    Resize {
        /// Columns.
        width: u16,
        /// Rows.
        height: u16,
    },
    /// Anything else.
    Other,
}

/// A message processed by the runtime's event loop.
#[allow(inconsistent_fields)]
pub enum RuntimeEvent {
    /// A terminal input event.
    Input(InputEvent),
    /// Output from a running process.
    Output {
        /// Pane that produced the output.
        pane: PaneId,
        /// Spawn generation that produced it; output from a superseded
        /// generation is ignored.
        generation: u64,
        /// The output event.
        output: ProcessOutput,
    },
    /// A pane's restart backoff has elapsed; respawn it if still current.
    Respawn {
        /// Pane to respawn.
        pane: PaneId,
        /// Generation captured when the restart was scheduled; a mismatch means
        /// a later action superseded it and the respawn must be ignored.
        generation: u64,
    },
    /// A pane's grace period has elapsed; kill it if it is still being stopped.
    ForceStop {
        /// Pane to kill.
        pane: PaneId,
        /// Spawn generation captured when the stop was requested.
        spawn_generation: u64,
        /// Shutdown generation captured when the stop was requested.
        shutdown_generation: u64,
    },
    /// Directory completions computed off the event loop.
    Completions {
        /// Request generation; a mismatch means a later edit superseded it and
        /// the candidates must be ignored.
        generation: CompletionGeneration,
        /// The matching subdirectories to show.
        candidates: Vec<String>,
    },
    /// A config file changed on disk; the process list is reconciled.
    ConfigChanged {
        /// Normalized path of the config that changed.
        path: String,
        /// What it holds now.
        config: Result<WorkspaceConfig, String>,
    },
    /// The answer to the oldest question.
    Answer(Reply),
    /// The terminal input source failed or closed; the runtime should stop.
    InputClosed,
}

} // verus!
