//! The words that the user reads.

use vstd::prelude::*;
use vstd::string::*;
use crate::message::{kind_word, Feedback, Message, Prompt, Toast, ToastText, Tone};
use crate::moment::Moment;
use crate::process::{agent_tools, AgentTool, Presets, ProcessKind};

verus! {

/// Every message reads as it should: the fixed ones word for word, and those about
/// a process, a project or an error with its words after a colon.
pub proof fn messages_read_as_written(message: Message)
    ensures
        message matches Message::SessionStore(error) ==> message.words()
            == "could not update agent session history"@ + ": "@ + error@,
        message == Message::SessionStoreFailed ==> message.words()
            == "could not update agent session history"@,
        message matches Message::SessionRollback(error) ==> message.words()
            == "could not restore agent session history"@ + ": "@ + error@,
        message == Message::NotResumable ==> message.words()
            == "the provider session ID was not captured; run `muster hooks setup`"@,
        message == Message::NoRecentSession ==> message.words()
            == "no closed agent session to reopen"@,
        message == Message::SwitchInProgress ==> message.words()
            == "project switch in progress; reopen after it completes"@,
        message matches Message::ProjectOpen { name, error } ==> message.words()
            == name@ + ": "@ + error@,
        message == Message::CannotRemoveLaunched ==> message.words()
            == "this project is not saved, so there is nothing to remove"@,
        message == Message::DeleteAlreadyRetiring ==> message.words()
            == "this process is already being removed"@,
        message == Message::DeleteProjectChanged ==> message.words()
            == "nothing deleted: the project changed"@,
        message == Message::DeleteEntryGone ==> message.words()
            == "nothing deleted: the entry is no longer in the config"@,
        message == Message::WorkspaceSave ==> message.words()
            == "could not write the project config"@,
        message == Message::StopDeliveryFailed ==> message.words()
            == "could not stop the process"@,
        message == Message::GracefulFallback ==> message.words()
            == "graceful shutdown failed; force-killed"@,
        message == Message::ForceStopped ==> message.words()
            == "graceful shutdown timed out; force-killed"@,
        message == Message::SessionAutostart ==> message.words()
            == "open agent sessions restore automatically; use d to close one"@,
        message == Message::AutostartUntracked ==> message.words()
            == "autostart unchanged: process is not in the config"@,
        message == Message::NoAttention ==> message.words() == "no process is waiting for input"@,
        message == Message::NameTaken ==> message.words()
            == "another agent already uses that name"@,
        message == Message::CommandRequired ==> message.words()
            == "a custom agent needs a command"@,
        message == Message::ResumeTemplateInvalid ==> message.words()
            == "resume placeholder must be an unquoted standalone shell word"@,
        message == Message::CompoundResumeRequired ==> message.words()
            == "shell compositions need an explicit resume command"@,
        message == Message::PinSourceRunning ==> message.words()
            == "that conversation is still running"@,
        message == Message::ConfiguredClose ==> message.words()
            == "configured agents stay pinned in muster.yml"@,
        message matches Message::SettingsLoad(error) ==> message.words()
            == "could not load settings; file left unchanged"@ + ": "@ + error@,
        message == Message::SettingsSave ==> message.words() == "could not save settings"@,
        message == Message::SettingsUnavailable ==> message.words() == "settings are unavailable"@,
        message == Message::DesktopOn ==> message.words() == "desktop notifications on"@,
        message == Message::DesktopOff ==> message.words() == "desktop notifications off"@,
        message matches Message::Raised { name, text } ==> message.words()
            == name@ + ": "@ + text@,
        message matches Message::Rang(name) ==> message.words()
            == name@ + ": "@ + "awaiting input"@,
        message matches Message::Outside(text) ==> message.words() == text@,
{
}

/// A question names what it is about.
pub proof fn questions_name_their_subject(prompt: Prompt)
    ensures
        prompt matches Prompt::MissingConfig(name) ==> prompt.words() == name@
            + "'s config file is missing."@,
        prompt matches Prompt::RemoveProject(name) ==> prompt.words() == "Remove project '"@ + name@
            + "'?"@,
        prompt matches Prompt::DeleteProcess { kind, name } ==> prompt.words() == "Delete "@ + (
        match kind {
            ProcessKind::Agent => "agent"@,
            ProcessKind::Terminal => "terminal"@,
            ProcessKind::Command => "command"@,
        }) + " '"@ + name@ + "' from muster.yml?"@,
        prompt matches Prompt::CloseSession(name) ==> prompt.words() == "Close agent session "@
            + name@ + "?"@,
        prompt == Prompt::Overwrite ==> prompt.words()
            == "A muster.yml already exists in that folder."@,
{
}

/// A notice stands for six seconds and a toast for three, and neither takes the
/// other's place.
pub proof fn feedback_stands_for_its_time(
    feedback: Feedback,
    message: Message,
    text: ToastText,
    tone: Tone,
    now: Moment,
)
    ensures
        feedback.noted(message, now) == (Feedback {
            notice: Some(message),
            notice_deadline: Some(now.later(6_000)),
            toast: feedback.toast,
        }),
        feedback.toasted(text, tone, now) == (Feedback {
            notice: feedback.notice,
            notice_deadline: feedback.notice_deadline,
            toast: Some(Toast { message: text, tone, expires_at: now.later(3_000) }),
        }),
        feedback.unnoted().notice is None && feedback.unnoted().notice_deadline is None,
        feedback.untoasted().toast is None,
        feedback.toasted(text, tone, now).toast_deadline() == Some(now.later(3_000)),
        feedback.untoasted().toast_deadline() is None,
        feedback.unnoted().toast == feedback.toast,
        feedback.untoasted().notice == feedback.notice,
{
}

/// The tools are offered in one order, each under its own label and command; the
/// custom one is called so and has no command.
pub proof fn each_tool_has_its_own_preset(presets: Presets)
    ensures
        agent_tools() == seq![
            AgentTool::Claude,
            AgentTool::Codex,
            AgentTool::Gemini,
            AgentTool::Copilot,
            AgentTool::Custom,
        ],
        presets.label(AgentTool::Claude) == presets.claude.label@,
        presets.label(AgentTool::Codex) == presets.codex.label@,
        presets.label(AgentTool::Gemini) == presets.gemini.label@,
        presets.label(AgentTool::Copilot) == presets.copilot.label@,
        presets.label(AgentTool::Custom) == "Custom"@,
        presets.command(AgentTool::Claude) == Some(presets.claude.command@),
        presets.command(AgentTool::Codex) == Some(presets.codex.command@),
        presets.command(AgentTool::Gemini) == Some(presets.gemini.command@),
        presets.command(AgentTool::Copilot) == Some(presets.copilot.command@),
        presets.command(AgentTool::Custom) is None,
{
}

/// The fixed names: the file of a workspace, the terminal of a new one, and the
/// number of names that are drawn for one to be free.
pub proof fn the_fixed_names_are_these()
    ensures
        crate::config::WORKSPACE_FILE_NAME@ == "muster.yml"@,
        crate::config::STARTER_TERMINAL@ == "Terminal"@,
        crate::names::GENERATED_NAME_ATTEMPTS == 8,
        crate::message::TOAST_COPIED@ == "copied"@,
        crate::palette::ON_LIGHT_FOREGROUND == 0x10,
        crate::palette::ON_DARK_FOREGROUND == 0xe0,
{
}

} // verus!
