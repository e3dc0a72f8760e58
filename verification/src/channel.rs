//! Bringing up the interactive channel of an authenticated session, one step
//! at a time: open a channel, ask for a pseudo-terminal, set the terminal's
//! environment, start the shell, and try for SFTP.
//!
//! Each step is carried out by the program around this library, which
//! reports whether it went through; what follows is decided here. A failure
//! to open the channel, to get the pseudo-terminal or to start the shell
//! ends the setup. A server that refuses an environment variable is
//! tolerated, and so is one without SFTP: the shell works without either.

use vstd::prelude::*;
use vstd::string::*;

verus! {

/// The terminal type that is asked for.
pub const TERMINAL_TYPE: &'static str = "xterm-256color";

/// The locale that is asked for.
pub const LOCALE: &'static str = "en_US.UTF-8";

/// Columns of a terminal before any resize.
pub const DEFAULT_COLS: u16 = 80;

/// Rows of a terminal before any resize.
pub const DEFAULT_ROWS: u16 = 24;

/// The size of a terminal, in character cells and in pixels.
#[derive(Debug, Clone, Copy, PartialEq, Eq, Structural)]
pub struct TerminalSize {
    pub cols: u16,
    pub rows: u16,
    pub width: u16,
    pub height: u16,
}

impl Default for TerminalSize {
    /// 80 columns and 24 rows, on 640 by 480 pixels.
    fn default() -> (size: TerminalSize)
        ensures
            size == (TerminalSize { cols: DEFAULT_COLS, rows: DEFAULT_ROWS, width: 640, height: 480 }),
    {
        TerminalSize { cols: DEFAULT_COLS, rows: DEFAULT_ROWS, width: 640, height: 480 }
    }
}

/// A variable of the remote shell's environment.
#[derive(Debug, Clone, Copy, PartialEq, Eq, Structural)]
pub enum EnvVar {
    Term,
    LcAll,
    Lang,
}

/// One step of the setup.
#[derive(Debug, Clone, Copy, PartialEq, Eq, Structural)]
pub enum SetupStep {
    /// Open a session channel.
    OpenChannel,
    /// Ask for a pseudo-terminal of the terminal type and the default size.
    RequestPty,
    /// Set one environment variable.
    SetEnv(EnvVar),
    /// Start the remote shell.
    StartShell,
    /// Open an SFTP channel beside the shell.
    OpenSftp,
}

/// What follows a step.
#[derive(Debug, Clone, Copy, PartialEq, Eq, Structural)]
pub enum SetupVerdict {
    /// Go on with this step.
    Next(SetupStep),
    /// The shell is up; `sftp` says whether remote files can be browsed.
    Ready { sftp: bool },
    /// The setup has failed at this step.
    Failed(SetupStep),
}

/// Whether a failure of `step` ends the setup.
pub open spec fn is_fatal(step: SetupStep) -> bool {
    step == SetupStep::OpenChannel || step == SetupStep::RequestPty || step
        == SetupStep::StartShell
}

/// The step that follows `step` when the setup goes on; `None` after the
/// last one.
pub open spec fn following(step: SetupStep) -> Option<SetupStep> {
    match step {
        SetupStep::OpenChannel => Some(SetupStep::RequestPty),
        SetupStep::RequestPty => Some(SetupStep::SetEnv(EnvVar::Term)),
        SetupStep::SetEnv(EnvVar::Term) => Some(SetupStep::SetEnv(EnvVar::LcAll)),
        SetupStep::SetEnv(EnvVar::LcAll) => Some(SetupStep::SetEnv(EnvVar::Lang)),
        SetupStep::SetEnv(EnvVar::Lang) => Some(SetupStep::StartShell),
        SetupStep::StartShell => Some(SetupStep::OpenSftp),
        SetupStep::OpenSftp => None,
    }
}

/// What follows `step`, which went through if `ok` and failed if not.
pub open spec fn verdict_of(step: SetupStep, ok: bool) -> SetupVerdict {
    if !ok && is_fatal(step) {
        SetupVerdict::Failed(step)
    } else {
        match following(step) {
            Some(next) => SetupVerdict::Next(next),
            None => SetupVerdict::Ready { sftp: ok },
        }
    }
}

/// The step with which the setup begins.
pub fn first_step() -> (step: SetupStep)
    ensures
        step == SetupStep::OpenChannel,
{
    SetupStep::OpenChannel
}

/// Decides what follows `step`.
pub fn after_step(step: SetupStep, ok: bool) -> (verdict: SetupVerdict)
    ensures
        verdict == verdict_of(step, ok),
{
    match step {
        SetupStep::OpenChannel => if ok {
            SetupVerdict::Next(SetupStep::RequestPty)
        } else {
            SetupVerdict::Failed(step)
        },
        SetupStep::RequestPty => if ok {
            SetupVerdict::Next(SetupStep::SetEnv(EnvVar::Term))
        } else {
            SetupVerdict::Failed(step)
        },
        SetupStep::SetEnv(EnvVar::Term) => SetupVerdict::Next(SetupStep::SetEnv(EnvVar::LcAll)),
        SetupStep::SetEnv(EnvVar::LcAll) => SetupVerdict::Next(SetupStep::SetEnv(EnvVar::Lang)),
        SetupStep::SetEnv(EnvVar::Lang) => SetupVerdict::Next(SetupStep::StartShell),
        SetupStep::StartShell => if ok {
            SetupVerdict::Next(SetupStep::OpenSftp)
        } else {
            SetupVerdict::Failed(step)
        },
        SetupStep::OpenSftp => SetupVerdict::Ready { sftp: ok },
    }
}

/// The name of an environment variable.
pub open spec fn env_name_of(var: EnvVar) -> Seq<char> {
    match var {
        EnvVar::Term => "TERM"@,
        EnvVar::LcAll => "LC_ALL"@,
        EnvVar::Lang => "LANG"@,
    }
}

/// The value that an environment variable is set to.
pub open spec fn env_value_of(var: EnvVar) -> Seq<char> {
    match var {
        EnvVar::Term => TERMINAL_TYPE@,
        EnvVar::LcAll => LOCALE@,
        EnvVar::Lang => LOCALE@,
    }
}

/// The name and the value to set for `var`.
pub fn env_setting(var: EnvVar) -> (setting: (&'static str, &'static str))
    ensures
        setting.0@ == env_name_of(var),
        setting.1@ == env_value_of(var),
{
    match var {
        EnvVar::Term => ("TERM", TERMINAL_TYPE),
        EnvVar::LcAll => ("LC_ALL", LOCALE),
        EnvVar::Lang => ("LANG", LOCALE),
    }
}

/// A request for a pseudo-terminal.
#[derive(Debug, Clone, Copy, PartialEq, Eq)]
pub struct PtyRequest {
    pub term: &'static str,
    pub cols: u32,
    pub rows: u32,
    pub pixel_width: u32,
    pub pixel_height: u32,
}

/// The request for a pseudo-terminal of size `size`.
pub fn pty_request(size: TerminalSize) -> (request: PtyRequest)
    ensures
        request.term@ == TERMINAL_TYPE@,
        request.cols == size.cols,
        request.rows == size.rows,
        request.pixel_width == size.width,
        request.pixel_height == size.height,
{
    PtyRequest {
        term: TERMINAL_TYPE,
        cols: size.cols as u32,
        rows: size.rows as u32,
        pixel_width: size.width as u32,
        pixel_height: size.height as u32,
    }
}

/// The request with which a new shell gets its pseudo-terminal: the default
/// 80 by 24 cells, with no size in pixels.
pub fn default_pty_request() -> (request: PtyRequest)
    ensures
        request.term@ == TERMINAL_TYPE@,
        request.cols == DEFAULT_COLS,
        request.rows == DEFAULT_ROWS,
        request.pixel_width == 0,
        request.pixel_height == 0,
{
    pty_request(TerminalSize { cols: DEFAULT_COLS, rows: DEFAULT_ROWS, width: 0, height: 0 })
}

/// The shell that a local terminal runs: the one asked for; else the one
/// that the environment names; else `/bin/bash`.
pub fn choose_shell(requested: Option<String>, from_environment: Option<String>) -> (shell: String)
    ensures
        shell@ == match (requested, from_environment) {
            (Some(asked), _) => asked@,
            (None, Some(named)) => named@,
            (None, None) => "/bin/bash"@,
        },
{
    match requested {
        Some(asked) => asked,
        None => match from_environment {
            Some(named) => named,
            None => String::from_str("/bin/bash"),
        },
    }
}

/// The line that tells the user what `step` does.
pub fn step_message(step: SetupStep) -> (line: &'static str)
    ensures
        line@ == match step {
            SetupStep::OpenChannel => "Creating terminal session"@,
            SetupStep::RequestPty => "Requesting pseudo-terminal (PTY)"@,
            SetupStep::SetEnv(_) => "Setting up terminal environment"@,
            SetupStep::StartShell => "Starting remote shell"@,
            SetupStep::OpenSftp => "Initializing SFTP support"@,
        },
{
    match step {
        SetupStep::OpenChannel => "Creating terminal session",
        SetupStep::RequestPty => "Requesting pseudo-terminal (PTY)",
        SetupStep::SetEnv(_) => "Setting up terminal environment",
        SetupStep::StartShell => "Starting remote shell",
        SetupStep::OpenSftp => "Initializing SFTP support",
    }
}

/// What a channel setup that failed at `step` is reported as: what could
/// not be done, and the reason that the SSH library gave.
pub open spec fn failure_text(step: SetupStep, reason: Seq<char>) -> Seq<char> {
    (match step {
        SetupStep::OpenChannel => "Failed to create SSH channel: "@,
        SetupStep::RequestPty => "Failed to request PTY: "@,
        SetupStep::SetEnv(_) => "Failed to set environment: "@,
        SetupStep::StartShell => "Failed to start shell: "@,
        SetupStep::OpenSftp => "SFTP not available: "@,
    }) + reason
}

/// The text of the error for a setup that failed at `step`.
pub fn failure_message(step: SetupStep, reason: &str) -> (text: String)
    ensures
        text@ == failure_text(step, reason@),
{
    let head = match step {
        SetupStep::OpenChannel => "Failed to create SSH channel: ",
        SetupStep::RequestPty => "Failed to request PTY: ",
        SetupStep::SetEnv(_) => "Failed to set environment: ",
        SetupStep::StartShell => "Failed to start shell: ",
        SetupStep::OpenSftp => "SFTP not available: ",
    };
    String::from_str(head).concat(reason)
}

/// The steps from `step` on when each one is reported as `outcomes` say, up
/// to the point where the setup ends or the outcomes run out.
pub open spec fn walk(step: SetupStep, outcomes: Seq<bool>) -> SetupVerdict
    decreases outcomes.len(),
{
    if outcomes.len() == 0 {
        SetupVerdict::Next(step)
    } else {
        match verdict_of(step, outcomes[0]) {
            SetupVerdict::Next(next) => walk(next, outcomes.drop_first()),
            ended => ended,
        }
    }
}

/// A setup in which the channel, the pseudo-terminal and the shell come up
/// ends with the shell ready, whatever became of the environment variables
/// and of SFTP; and SFTP is there exactly if its channel opened.
pub proof fn law_only_channel_pty_and_shell_are_fatal(outcomes: Seq<bool>)
    requires
        outcomes.len() == 7,
        outcomes[0],
        outcomes[1],
        outcomes[5],
    ensures
        walk(SetupStep::OpenChannel, outcomes) == (SetupVerdict::Ready { sftp: outcomes[6] }),
{
    reveal_with_fuel(walk, 8);
}

} // verus!
