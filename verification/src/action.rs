//! What passes between the shell and the program that drives it. The shell
//! asks for one [`Action`] at a time; the driver carries it out and reports
//! what came of it as an [`Event`].

use vstd::prelude::*;
use crate::command::texts;

verus! {

/// The signals the shell shields itself from.
#[derive(Debug, Clone, Copy, PartialEq, Eq, Structural)]
pub enum Signal {
    /// Sent to a background process that changes the terminal's settings.
    TerminalOutput,
    /// Sent when the user asks to suspend the foreground job.
    TerminalStop,
}

/// Why the shell cannot go on.
#[derive(Debug, Clone, Copy, PartialEq, Eq, Structural)]
pub enum Fatal {
    /// The shell could not take control of its terminal.
    Startup,
    /// No line could be read.
    Input,
    /// The foreground job could not be waited for.
    Wait,
    /// An event arrived that answers no action the shell asked for.
    Unexpected,
}

/// What came of the action the shell asked for last.
#[derive(Debug, Clone, PartialEq, Eq)]
pub enum Event {
    /// Nothing was asked for yet: the shell starts.
    Start,
    /// The action was carried out.
    Done,
    /// The action failed; the text says how.
    Failed(String),
    /// The process or process group that was asked for.
    ProcessId(i32),
    /// A line was read.
    Line(String),
    /// The input has ended.
    EndOfInput,
    /// A child was created; this is the parent, and the child has this id.
    Parent(i32),
    /// A child was created; this is the child.
    Child,
    /// The awaited child is gone, with this status.
    Waited(i32),
}

/// The mathematical value of an [`Event`].
pub enum EventView {
    Start,
    Done,
    Failed(Seq<char>),
    ProcessId(i32),
    Line(Seq<char>),
    EndOfInput,
    Parent(i32),
    Child,
    Waited(i32),
}

impl View for Event {
    type V = EventView;

    open spec fn view(&self) -> EventView {
        match *self {
            Event::Start => EventView::Start,
            Event::Done => EventView::Done,
            Event::Failed(how) => EventView::Failed(how@),
            Event::ProcessId(id) => EventView::ProcessId(id),
            Event::Line(text) => EventView::Line(text@),
            Event::EndOfInput => EventView::EndOfInput,
            Event::Parent(child) => EventView::Parent(child),
            Event::Child => EventView::Child,
            Event::Waited(status) => EventView::Waited(status),
        }
    }
}

/// What the shell asks its driver to do next.
#[derive(Debug, Clone, PartialEq, Eq)]
pub enum Action {
    /// Have the signal ignored from now on.
    IgnoreSignal(Signal),
    /// Report this process's id.
    GetProcessId,
    /// Put process `pid` into process group `pgid`; 0 stands for the caller.
    SetProcessGroup { pid: i32, pgid: i32 },
    /// Make `pgid` the terminal's foreground process group.
    SetForeground { pgid: i32 },
    /// Prompt, and read one line.
    ReadLine,
    /// Tell the user.
    Report { message: String },
    /// Change the working directory.
    ChangeDirectory { path: String },
    /// Create a child process.
    Fork,
    /// Block until child `pid` is gone.
    Wait { pid: i32 },
    /// Report this process's group.
    GetProcessGroup,
    /// Replace the process image.
    Exec { program: String, argv: Vec<String> },
    /// Write to standard output.
    Write { text: String },
    /// Print the notice and end the process.
    Exit { notice: String, status: i32 },
    /// End the process at once, with no cleanup.
    ExitNow { status: i32 },
    /// Give up.
    Abort(Fatal),
}

/// The mathematical value of an [`Action`].
pub enum ActionView {
    IgnoreSignal(Signal),
    GetProcessId,
    SetProcessGroup { pid: i32, pgid: i32 },
    SetForeground { pgid: i32 },
    ReadLine,
    Report { message: Seq<char> },
    ChangeDirectory { path: Seq<char> },
    Fork,
    Wait { pid: i32 },
    GetProcessGroup,
    Exec { program: Seq<char>, argv: Seq<Seq<char>> },
    Write { text: Seq<char> },
    Exit { notice: Seq<char>, status: i32 },
    ExitNow { status: i32 },
    Abort(Fatal),
}

impl View for Action {
    type V = ActionView;

    open spec fn view(&self) -> ActionView {
        match *self {
            Action::IgnoreSignal(signal) => ActionView::IgnoreSignal(signal),
            Action::GetProcessId => ActionView::GetProcessId,
            Action::SetProcessGroup { pid, pgid } => ActionView::SetProcessGroup { pid, pgid },
            Action::SetForeground { pgid } => ActionView::SetForeground { pgid },
            Action::ReadLine => ActionView::ReadLine,
            Action::Report { message } => ActionView::Report { message: message@ },
            Action::ChangeDirectory { path } => ActionView::ChangeDirectory { path: path@ },
            Action::Fork => ActionView::Fork,
            Action::Wait { pid } => ActionView::Wait { pid },
            Action::GetProcessGroup => ActionView::GetProcessGroup,
            Action::Exec { program, argv } => ActionView::Exec {
                program: program@,
                argv: texts(argv@),
            },
            Action::Write { text } => ActionView::Write { text: text@ },
            Action::Exit { notice, status } => ActionView::Exit { notice: notice@, status },
            Action::ExitNow { status } => ActionView::ExitNow { status },
            Action::Abort(fatal) => ActionView::Abort(fatal),
        }
    }
}

} // verus!
