//! What a strategy runs, and what comes back from running it.
//!
//! Running a command is left to the caller. The library says which command
//! to run and decides on what it is told about the run.

use crate::text::{Extraction, ExtractionView};
use vstd::prelude::*;

verus! {

/// The operating system a command table is written for.
#[derive(Clone, Copy, Debug, PartialEq, Eq, Structural)]
pub enum Platform {
    Windows,
    Other,
}

/// A program and its arguments.
///
/// `hide_window` asks the runner to start the process without a visible
/// console window, which matters where the host is a graphical application.
/// Standard input is always empty.
#[derive(Clone, Debug, PartialEq, Eq)]
pub struct CommandLine {
    pub program: String,
    pub args: Vec<String>,
    pub hide_window: bool,
}

/// The mathematical content of a [`CommandLine`].
pub struct CommandLineView {
    pub program: Seq<char>,
    pub args: Seq<Seq<char>>,
    pub hide_window: bool,
}

impl DeepView for CommandLine {
    type V = CommandLineView;

    open spec fn deep_view(&self) -> CommandLineView {
        CommandLineView {
            program: self.program@,
            args: self.args.deep_view(),
            hide_window: self.hide_window,
        }
    }
}

/// Whether processes are started without a console window on `platform`.
pub open spec fn hides_window(platform: Platform) -> bool {
    platform == Platform::Windows
}

/// The command line that hands `script` to the PowerShell interpreter.
pub open spec fn powershell_view(script: Seq<char>, platform: Platform) -> CommandLineView {
    CommandLineView {
        program: "powershell"@,
        args: seq!["-Command"@, script],
        hide_window: hides_window(platform),
    }
}

/// The command line that runs `program` without arguments.
pub open spec fn bare_view(program: Seq<char>, platform: Platform) -> CommandLineView {
    CommandLineView { program, args: Seq::empty(), hide_window: hides_window(platform) }
}

impl Platform {
    /// Whether processes are started without a console window here.
    pub fn hides_window(self) -> (b: bool)
        ensures
            b == hides_window(self),
    {
        match self {
            Platform::Windows => true,
            Platform::Other => false,
        }
    }
}

impl CommandLine {
    /// The command line that hands `script` to the PowerShell interpreter.
    pub fn powershell(script: &str, platform: Platform) -> (command: CommandLine)
        ensures
            command.deep_view() == powershell_view(script@, platform),
    {
        let mut args: Vec<String> = Vec::new();
        args.push("-Command".to_owned());
        args.push(script.to_owned());
        assert(args.deep_view() =~= seq!["-Command"@, script@]);
        CommandLine {
            program: "powershell".to_owned(),
            args,
            hide_window: platform.hides_window(),
        }
    }

    /// The command line that runs `program` without arguments.
    pub fn bare(program: &str, platform: Platform) -> (command: CommandLine)
        ensures
            command.deep_view() == bare_view(program@, platform),
    {
        let args: Vec<String> = Vec::new();
        assert(args.deep_view() =~= Seq::empty());
        CommandLine { program: program.to_owned(), args, hide_window: platform.hides_window() }
    }
}

/// A named candidate for producing a value: a command, and the way its
/// output is read.
#[derive(Clone, Debug, PartialEq, Eq)]
pub struct Strategy {
    pub name: String,
    pub command: CommandLine,
    pub extraction: Extraction,
}

/// The mathematical content of a [`Strategy`].
pub struct StrategyView {
    pub name: Seq<char>,
    pub command: CommandLineView,
    pub extraction: ExtractionView,
}

impl DeepView for Strategy {
    type V = StrategyView;

    open spec fn deep_view(&self) -> StrategyView {
        StrategyView {
            name: self.name@,
            command: self.command.deep_view(),
            extraction: self.extraction@,
        }
    }
}

/// What a process left behind: whether it exited with success, and what it
/// wrote.
#[derive(Clone, Debug, PartialEq, Eq)]
pub struct RawCommandResult {
    pub exit_success: bool,
    pub stdout: String,
    pub stderr: String,
}

/// The mathematical content of a [`RawCommandResult`].
pub struct RawCommandResultView {
    pub exit_success: bool,
    pub stdout: Seq<char>,
    pub stderr: Seq<char>,
}

impl DeepView for RawCommandResult {
    type V = RawCommandResultView;

    open spec fn deep_view(&self) -> RawCommandResultView {
        RawCommandResultView {
            exit_success: self.exit_success,
            stdout: self.stdout@,
            stderr: self.stderr@,
        }
    }
}

/// The event that follows an attempt to run a command.
///
/// An exit status other than success is no execution failure: the process
/// ran, and its result can be inspected.
#[derive(Clone, Debug, PartialEq, Eq)]
pub enum RunOutcome {
    /// The program could not be started at all.
    ExecutionFailure,
    /// The process ran to its end.
    Completed(RawCommandResult),
}

/// The mathematical content of a [`RunOutcome`].
pub enum RunOutcomeView {
    ExecutionFailure,
    Completed(RawCommandResultView),
}

impl DeepView for RunOutcome {
    type V = RunOutcomeView;

    open spec fn deep_view(&self) -> RunOutcomeView {
        match self {
            RunOutcome::ExecutionFailure => RunOutcomeView::ExecutionFailure,
            RunOutcome::Completed(result) => RunOutcomeView::Completed(result.deep_view()),
        }
    }
}

} // verus!
