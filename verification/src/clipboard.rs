//! The order in which the ways to the clipboard are tried. Running a tool or
//! touching a file is the caller's part; what to try next is decided here.
//!
//! To copy, the session's own tool is tried first: `wl-copy` under Wayland,
//! `xclip` else, and `xclip` also where `wl-copy` cannot be started. Where
//! that fails the user's own clipboard is tried, up to twice: its script if
//! there is one, then its file. To paste, `wl-paste` under Wayland, then
//! `xclip`, then `xsel`, then the user's clipboard once.

use vstd::prelude::*;

verus! {

/// The clipboard of the desktop session.
#[derive(Debug, Clone, Copy, PartialEq, Eq, Structural)]
pub struct Clipboard;

/// A way to the clipboard.
#[derive(Debug, Clone, Copy, PartialEq, Eq, Structural)]
pub enum Tool {
    /// The program `wl-copy`.
    WlCopy,
    /// The program `wl-paste`.
    WlPaste,
    /// The program `xclip`.
    Xclip,
    /// The program `xsel`.
    Xsel,
    /// The user's clipboard script.
    UserScript,
    /// The user's clipboard file.
    ClipboardFile,
}

/// How a try ended.
#[derive(Debug, Clone, Copy, PartialEq, Eq, Structural)]
pub enum Outcome {
    /// It worked.
    Succeeded,
    /// The tool ran and reported a failure.
    Failed,
    /// The tool could not be started.
    Unavailable,
    /// The tool was started, but talking to it broke down.
    Broken,
}

/// What is done next.
#[derive(Debug, Clone, Copy, PartialEq, Eq, Structural)]
pub enum Step {
    /// Try this way.
    Run(Tool),
    /// The text is where it should be.
    Done,
    /// Every way failed.
    GiveUp,
}

/// What the session offers.
#[derive(Debug, Clone, Copy, PartialEq, Eq, Structural)]
pub struct ClipboardEnv {
    /// Whether the session runs under Wayland.
    pub wayland: bool,
    /// Whether the user's home directory is known.
    pub home_known: bool,
    /// Whether the user's clipboard script exists.
    pub script_exists: bool,
}

/// How the user's clipboard is entered: not at all without a home
/// directory, by the script if there is one, else by the file.
pub open spec fn user_clipboard(env: ClipboardEnv) -> Step {
    if !env.home_known {
        Step::GiveUp
    } else if env.script_exists {
        Step::Run(Tool::UserScript)
    } else {
        Step::Run(Tool::ClipboardFile)
    }
}

/// The first way to copy.
pub open spec fn copy_first(env: ClipboardEnv) -> Step {
    if env.wayland {
        Step::Run(Tool::WlCopy)
    } else {
        Step::Run(Tool::Xclip)
    }
}

/// What follows a try to copy. `second_round` tells whether the user's
/// clipboard has failed once already; the result tells it for the next try.
pub open spec fn copy_after(env: ClipboardEnv, tool: Tool, outcome: Outcome, second_round: bool)
    -> (Step, bool) {
    if outcome == Outcome::Succeeded {
        (Step::Done, second_round)
    } else {
        match tool {
            Tool::WlCopy => if outcome == Outcome::Failed {
                user_clipboard_round(env, second_round)
            } else {
                (Step::Run(Tool::Xclip), second_round)
            },
            Tool::UserScript => (Step::Run(Tool::ClipboardFile), second_round),
            Tool::ClipboardFile => if second_round {
                (Step::GiveUp, true)
            } else {
                user_clipboard_round(env, true)
            },
            _ => user_clipboard_round(env, second_round),
        }
    }
}

/// The user's clipboard as a step of copying. Where it cannot be entered,
/// the first round counts as failed and the second, which cannot be entered
/// either, ends the copying.
pub open spec fn user_clipboard_round(env: ClipboardEnv, second_round: bool) -> (Step, bool) {
    if user_clipboard(env) == Step::GiveUp {
        (Step::GiveUp, true)
    } else {
        (user_clipboard(env), second_round)
    }
}

/// The first way to paste.
pub open spec fn paste_first(env: ClipboardEnv) -> Step {
    if env.wayland {
        Step::Run(Tool::WlPaste)
    } else {
        Step::Run(Tool::Xclip)
    }
}

/// What follows a try to paste.
pub open spec fn paste_after(env: ClipboardEnv, tool: Tool, outcome: Outcome) -> Step {
    if outcome == Outcome::Succeeded {
        Step::Done
    } else {
        match tool {
            Tool::WlPaste => Step::Run(Tool::Xclip),
            Tool::Xclip => if outcome == Outcome::Broken {
                user_clipboard(env)
            } else {
                Step::Run(Tool::Xsel)
            },
            Tool::UserScript => Step::Run(Tool::ClipboardFile),
            Tool::ClipboardFile => Step::GiveUp,
            _ => user_clipboard(env),
        }
    }
}

/// How many more tries a step of copying can lead to at most.
pub open spec fn copy_budget(step: Step, second_round: bool) -> nat {
    let rounds_left: nat = if second_round {
        0
    } else {
        2
    };
    match step {
        Step::Done => 0,
        Step::GiveUp => 0,
        Step::Run(Tool::WlCopy) => 6,
        Step::Run(Tool::ClipboardFile) => 1 + rounds_left,
        Step::Run(Tool::UserScript) => 2 + rounds_left,
        Step::Run(_) => 5,
    }
}

impl Clipboard {
    /// Says how the user's clipboard is entered.
    pub fn enter_user_clipboard(env: ClipboardEnv) -> (step: Step)
        ensures
            step == user_clipboard(env),
    {
        if !env.home_known {
            Step::GiveUp
        } else if env.script_exists {
            Step::Run(Tool::UserScript)
        } else {
            Step::Run(Tool::ClipboardFile)
        }
    }

    /// Says how copying begins.
    pub fn copy_to_clipboard(env: ClipboardEnv) -> (step: Step)
        ensures
            step == copy_first(env),
    {
        if env.wayland {
            Step::Run(Tool::WlCopy)
        } else {
            Step::Run(Tool::Xclip)
        }
    }

    /// Says how copying goes on after a try.
    pub fn copy_next(env: ClipboardEnv, tool: Tool, outcome: Outcome, second_round: bool) -> (next:
        (Step, bool))
        ensures
            next == copy_after(env, tool, outcome, second_round),
    {
        match outcome {
            Outcome::Succeeded => (Step::Done, second_round),
            _ => {
                let entry: Step = Clipboard::enter_user_clipboard(env);
                let no_entry: bool = match entry {
                    Step::GiveUp => true,
                    _ => false,
                };
                match tool {
                    Tool::WlCopy => match outcome {
                        Outcome::Failed => (entry, second_round || no_entry),
                        _ => (Step::Run(Tool::Xclip), second_round),
                    },
                    Tool::UserScript => (Step::Run(Tool::ClipboardFile), second_round),
                    Tool::ClipboardFile => if second_round {
                        (Step::GiveUp, true)
                    } else {
                        (entry, true)
                    },
                    _ => (entry, second_round || no_entry),
                }
            },
        }
    }
}

/// Says how pasting begins.
pub fn paste_from_clipboard(env: ClipboardEnv) -> (step: Step)
    ensures
        step == paste_first(env),
{
    if env.wayland {
        Step::Run(Tool::WlPaste)
    } else {
        Step::Run(Tool::Xclip)
    }
}

/// Says how pasting goes on after a try.
pub fn paste_next(env: ClipboardEnv, tool: Tool, outcome: Outcome) -> (step: Step)
    ensures
        step == paste_after(env, tool, outcome),
{
    match outcome {
        Outcome::Succeeded => Step::Done,
        _ => match tool {
            Tool::WlPaste => Step::Run(Tool::Xclip),
            Tool::Xclip => match outcome {
                Outcome::Broken => Clipboard::enter_user_clipboard(env),
                _ => Step::Run(Tool::Xsel),
            },
            Tool::UserScript => Step::Run(Tool::ClipboardFile),
            Tool::ClipboardFile => Step::GiveUp,
            _ => Clipboard::enter_user_clipboard(env),
        },
    }
}

/// Says how putting a text on the clipboard begins. What follows each try
/// is told by [`Clipboard::copy_next`], starting in the first round.
pub fn set_text(env: ClipboardEnv) -> (step: Step)
    ensures
        step == copy_first(env),
{
    Clipboard::copy_to_clipboard(env)
}

/// Says how getting the text from the clipboard begins. What follows each
/// try is told by [`paste_next`].
pub fn get_text(env: ClipboardEnv) -> (step: Step)
    ensures
        step == paste_first(env),
{
    paste_from_clipboard(env)
}

/// Copying comes to an end: every try leads to a step from which fewer
/// tries can follow.
pub proof fn lemma_copy_terminates(
    env: ClipboardEnv,
    tool: Tool,
    outcome: Outcome,
    second_round: bool,
)
    requires
        tool == Tool::WlCopy || tool == Tool::Xclip || tool == Tool::UserScript || tool
            == Tool::ClipboardFile,
        (tool == Tool::UserScript || tool == Tool::ClipboardFile) ==> env.home_known,
    ensures
        copy_budget(copy_after(env, tool, outcome, second_round).0, copy_after(
            env,
            tool,
            outcome,
            second_round,
        ).1) < copy_budget(Step::Run(tool), second_round),
{
}

} // verus!
