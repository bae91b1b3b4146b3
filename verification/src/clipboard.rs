//! Choosing how text reaches the host clipboard.

use vstd::prelude::*;

verus! {

/// The platform the program runs on, as far as clipboards are concerned.
#[derive(Debug, Clone, Copy, PartialEq, Eq, Structural)]
pub enum Platform {
    /// macOS.
    MacOs,
    /// Any other Unix.
    Unix,
    /// Anything else.
    Elsewhere,
}

/// What the environment says about clipboards.
#[derive(Debug, Clone, Copy, PartialEq, Eq, Structural)]
pub struct ClipboardEnvironment {
    /// Platform.
    pub platform: Platform,
    /// `SSH_CONNECTION` is set.
    pub ssh_connection: bool,
    /// `SSH_TTY` is set.
    pub ssh_tty: bool,
    /// `WAYLAND_DISPLAY` is set.
    pub wayland: bool,
    /// `DISPLAY` is set.
    pub x11: bool,
}

/// A clipboard-writing helper program.
#[derive(Debug, Clone, Copy, PartialEq, Eq, Structural)]
pub enum ClipboardCommand {
    /// `pbcopy`.
    PbCopy,
    /// `wl-copy`.
    WlCopy,
    /// `xclip`.
    XClip,
    /// `xsel`.
    XSel,
}

impl ClipboardCommand {
    /// Returns the program.
    pub fn program(self) -> (program: &'static str)
        ensures
            program@ == match self {
                ClipboardCommand::PbCopy => "pbcopy"@,
                ClipboardCommand::WlCopy => "wl-copy"@,
                ClipboardCommand::XClip => "xclip"@,
                ClipboardCommand::XSel => "xsel"@,
            },
    {
        match self {
            ClipboardCommand::PbCopy => "pbcopy",
            ClipboardCommand::WlCopy => "wl-copy",
            ClipboardCommand::XClip => "xclip",
            ClipboardCommand::XSel => "xsel",
        }
    }

    /// Returns the arguments.
    pub fn args(self) -> (args: Vec<&'static str>)
        ensures
            args@ == match self {
                ClipboardCommand::PbCopy => seq![],
                ClipboardCommand::WlCopy => seq!["--type", "text/plain;charset=utf-8"],
                ClipboardCommand::XClip => seq!["-selection", "clipboard", "-in"],
                ClipboardCommand::XSel => seq!["--clipboard", "--input"],
            },
    {
        let args: Vec<&'static str> = match self {
            ClipboardCommand::PbCopy => vec![],
            ClipboardCommand::WlCopy => vec!["--type", "text/plain;charset=utf-8"],
            ClipboardCommand::XClip => vec!["-selection", "clipboard", "-in"],
            ClipboardCommand::XSel => vec!["--clipboard", "--input"],
        };
        assert(args@ =~= match self {
            ClipboardCommand::PbCopy => seq![],
            ClipboardCommand::WlCopy => seq!["--type", "text/plain;charset=utf-8"],
            ClipboardCommand::XClip => seq!["-selection", "clipboard", "-in"],
            ClipboardCommand::XSel => seq!["--clipboard", "--input"],
        });
        args
    }
}

impl ClipboardEnvironment {
    /// Whether the session is a remote one.
    pub open spec fn remote(self) -> bool {
        self.ssh_connection || self.ssh_tty
    }

    /// The clipboard writers worth trying, in order.
    pub open spec fn tools(self) -> Seq<ClipboardCommand> {
        match self.platform {
            Platform::MacOs => seq![ClipboardCommand::PbCopy],
            Platform::Unix => (if self.wayland {
                seq![ClipboardCommand::WlCopy]
            } else {
                seq![]
            }) + (if self.x11 {
                seq![ClipboardCommand::XClip, ClipboardCommand::XSel]
            } else {
                seq![]
            }),
            Platform::Elsewhere => seq![],
        }
    }

    /// Whether the session should rely on OSC 52 instead of local tools.
    pub fn prefers_osc52(self) -> (prefers: bool)
        ensures
            prefers == self.remote(),
    {
        self.ssh_connection || self.ssh_tty
    }

    /// The platform clipboard writers worth trying, in order.
    pub fn clipboard_commands(self) -> (commands: Vec<ClipboardCommand>)
        ensures
            commands@ == self.tools(),
    {
        let mut commands: Vec<ClipboardCommand> = Vec::new();
        match self.platform {
            Platform::MacOs => commands.push(ClipboardCommand::PbCopy),
            Platform::Unix => {
                if self.wayland {
                    commands.push(ClipboardCommand::WlCopy);
                }
                if self.x11 {
                    commands.push(ClipboardCommand::XClip);
                    commands.push(ClipboardCommand::XSel);
                }
            },
            Platform::Elsewhere => {},
        }
        assert(commands@ =~= self.tools());
        commands
    }
}

/// What to do next to bring text into the host clipboard.
#[derive(Debug, Clone, Copy, PartialEq, Eq, Structural)]
pub enum ClipboardStep {
    /// Pipe the text into a helper.
    Run(ClipboardCommand),
    /// A helper took the text.
    Written,
    /// No helper took it: the terminal's own OSC 52 has to.
    Unavailable,
}

/// Whether one of the helpers tried so far took the text.
pub open spec fn accepted(outcomes: Seq<bool>) -> bool {
    outcomes.contains(true)
}

/// The next step after the helpers tried so far.
pub open spec fn next_step(environment: ClipboardEnvironment, outcomes: Seq<bool>) -> ClipboardStep {
    if environment.remote() {
        ClipboardStep::Unavailable
    } else if accepted(outcomes) {
        ClipboardStep::Written
    } else if outcomes.len() < environment.tools().len() {
        ClipboardStep::Run(environment.tools()[outcomes.len() as int])
    } else {
        ClipboardStep::Unavailable
    }
}

/// Decides the next step of writing through a native clipboard tool, from the
/// outcomes of the tools tried so far. Remote sessions skip straight to
/// `Unavailable`, because only the host terminal's OSC 52 reaches the local
/// clipboard there.
pub fn write_native(environment: ClipboardEnvironment, outcomes: &Vec<bool>) -> (step: ClipboardStep)
    ensures
        step == next_step(environment, outcomes@),
{
    if environment.prefers_osc52() {
        return ClipboardStep::Unavailable;
    }
    let mut i: usize = 0;
    while i < outcomes.len()
        invariant
            i <= outcomes@.len(),
            !environment.remote(),
            forall|j: int| 0 <= j < i ==> !outcomes@[j],
        decreases outcomes@.len() - i,
    {
        if outcomes[i] {
            assert(outcomes@[i as int]);
            return ClipboardStep::Written;
        }
        i = i + 1;
    }
    let commands: Vec<ClipboardCommand> = environment.clipboard_commands();
    if outcomes.len() < commands.len() {
        ClipboardStep::Run(commands[outcomes.len()])
    } else {
        ClipboardStep::Unavailable
    }
}

/// Trying the tools ends: after as many refusals as there are tools nothing is
/// run any more, and a tool that takes the text is the last one.
pub proof fn every_tool_is_tried_at_most_once(
    environment: ClipboardEnvironment,
    outcomes: Seq<bool>,
)
    ensures
        outcomes.len() >= environment.tools().len() ==> !(next_step(environment, outcomes) is Run),
        next_step(environment, outcomes.push(true)) is Run ==> false,
        environment.tools().len() <= 3,
        environment.tools().no_duplicates(),
{
    assert(outcomes.push(true)[outcomes.len() as int]);
}

} // verus!
