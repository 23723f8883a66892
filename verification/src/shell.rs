//! The shell session: a state machine that decides, event by event, what the
//! shell does next.
//!
//! The driver starts with [`Event::Start`], carries out each [`Action`] that
//! [`Shell::step`] returns and reports the outcome as the next event. The
//! shell first takes control of its terminal, then reads lines; a line that
//! names a program becomes one foreground job, which gets the terminal until
//! it is gone.

use vstd::prelude::*;
use vstd::string::StringExecFns;
use crate::action::{Action, ActionView, Event, EventView, Fatal, Signal};
use crate::builtin::{cd_target, cd_target_of};
use crate::command::{
    command_of, BuiltinCommand, BuiltinCommandView, Command, CommandView, ExternalCommand,
    ExternalCommandView,
};
use crate::environment::Environment;
use crate::expand::{regex_of, VARIABLE_PATTERN};
use crate::lexer::lex;
use crate::parser::{arguments, InvalidPattern, Parser};

verus! {

/// The process group that the terminal was last handed to.
#[derive(Debug, Clone, Copy, PartialEq, Eq, Structural)]
pub enum Foreground {
    /// The shell has not taken the terminal yet.
    Unclaimed,
    /// The shell's own group.
    Shell,
    /// The group of the foreground job with this process id.
    Child(i32),
}

/// Where the shell stands: which action it asked for last.
#[derive(Debug, Clone, PartialEq, Eq)]
pub enum Phase {
    /// Nothing was asked for yet.
    Created,
    /// Startup: having the terminal-output signal ignored.
    IgnoringTerminalOutput,
    /// Startup: having the terminal-stop signal ignored.
    IgnoringTerminalStop,
    /// Startup: learning the shell's process id.
    FindingSelf,
    /// Startup: becoming the leader of a process group of its own.
    LeadingGroup,
    /// Startup: taking the terminal.
    TakingTerminal,
    /// Reading a line.
    Reading,
    /// Telling the user of an error that does not end the shell.
    Reporting,
    /// Changing the working directory.
    ChangingDirectory,
    /// Creating the child that will run the command.
    Forking(ExternalCommand),
    /// Parent: putting the child into a group of its own.
    GroupingChild(i32),
    /// Parent: handing the terminal to the child's group.
    HandingOver(i32),
    /// Parent: waiting for the child.
    Waiting(i32),
    /// Parent: learning the shell's own group.
    FindingGroup,
    /// Parent: taking the terminal back.
    Reclaiming,
    /// Child: leaving the shell's group.
    Detaching(ExternalCommand),
    /// Child: becoming the program.
    Executing,
    /// Child: saying that the program could not be run.
    Complaining,
    /// The process was asked to end.
    Stopped,
}

/// The mathematical value of a [`Phase`].
pub enum PhaseView {
    Created,
    IgnoringTerminalOutput,
    IgnoringTerminalStop,
    FindingSelf,
    LeadingGroup,
    TakingTerminal,
    Reading,
    Reporting,
    ChangingDirectory,
    Forking(ExternalCommandView),
    GroupingChild(i32),
    HandingOver(i32),
    Waiting(i32),
    FindingGroup,
    Reclaiming,
    Detaching(ExternalCommandView),
    Executing,
    Complaining,
    Stopped,
}

impl View for Phase {
    type V = PhaseView;

    open spec fn view(&self) -> PhaseView {
        match *self {
            Phase::Created => PhaseView::Created,
            Phase::IgnoringTerminalOutput => PhaseView::IgnoringTerminalOutput,
            Phase::IgnoringTerminalStop => PhaseView::IgnoringTerminalStop,
            Phase::FindingSelf => PhaseView::FindingSelf,
            Phase::LeadingGroup => PhaseView::LeadingGroup,
            Phase::TakingTerminal => PhaseView::TakingTerminal,
            Phase::Reading => PhaseView::Reading,
            Phase::Reporting => PhaseView::Reporting,
            Phase::ChangingDirectory => PhaseView::ChangingDirectory,
            Phase::Forking(command) => PhaseView::Forking(command@),
            Phase::GroupingChild(child) => PhaseView::GroupingChild(child),
            Phase::HandingOver(child) => PhaseView::HandingOver(child),
            Phase::Waiting(child) => PhaseView::Waiting(child),
            Phase::FindingGroup => PhaseView::FindingGroup,
            Phase::Reclaiming => PhaseView::Reclaiming,
            Phase::Detaching(command) => PhaseView::Detaching(command@),
            Phase::Executing => PhaseView::Executing,
            Phase::Complaining => PhaseView::Complaining,
            Phase::Stopped => PhaseView::Stopped,
        }
    }
}

/// The status with which a child ends that could not run its program.
pub const NOT_FOUND_STATUS: i32 = 127;

/// The mathematical value of a [`Shell`].
pub struct ShellView {
    /// The variables the shell expands and `cd` reads.
    pub env: Map<Seq<char>, Seq<char>>,
    /// The shell's process id, once it is known; 0 before.
    pub shell_pid: i32,
    /// The status of the last foreground job; 0 before the first.
    pub last_status: i32,
    pub foreground: Foreground,
    pub phase: PhaseView,
}

impl ShellView {
    /// Moves to `phase`, asking for `action`.
    pub open spec fn ask(self, phase: PhaseView, action: ActionView) -> (ShellView, ActionView) {
        (ShellView { phase, ..self }, action)
    }

    pub open spec fn abort(self, fatal: Fatal) -> (ShellView, ActionView) {
        self.ask(PhaseView::Stopped, ActionView::Abort(fatal))
    }

    pub open spec fn read_on(self) -> (ShellView, ActionView) {
        self.ask(PhaseView::Reading, ActionView::ReadLine)
    }

    pub open spec fn report(self, message: Seq<char>) -> (ShellView, ActionView) {
        self.ask(PhaseView::Reporting, ActionView::Report { message })
    }

    /// Startup. The shell has the two signals ignored, makes itself the leader
    /// of a process group of its own and makes that group the terminal's
    /// foreground group. Whatever goes wrong here is fatal.
    pub open spec fn bootstrap(self, event: EventView) -> (ShellView, ActionView) {
        match (self.phase, event) {
            (PhaseView::Created, EventView::Start) => self.ask(
                PhaseView::IgnoringTerminalOutput,
                ActionView::IgnoreSignal(Signal::TerminalOutput),
            ),
            (PhaseView::Created, _) => self.abort(Fatal::Unexpected),
            (PhaseView::IgnoringTerminalOutput, EventView::Done) => self.ask(
                PhaseView::IgnoringTerminalStop,
                ActionView::IgnoreSignal(Signal::TerminalStop),
            ),
            (PhaseView::IgnoringTerminalStop, EventView::Done) => self.ask(
                PhaseView::FindingSelf,
                ActionView::GetProcessId,
            ),
            (PhaseView::FindingSelf, EventView::ProcessId(pid)) => (ShellView {
                shell_pid: pid,
                ..self
            }).ask(PhaseView::LeadingGroup, ActionView::SetProcessGroup { pid, pgid: pid }),
            (PhaseView::LeadingGroup, EventView::Done) => self.ask(
                PhaseView::TakingTerminal,
                ActionView::SetForeground { pgid: self.shell_pid },
            ),
            (PhaseView::TakingTerminal, EventView::Done) => (ShellView {
                foreground: Foreground::Shell,
                ..self
            }).read_on(),
            _ => self.abort(Fatal::Startup),
        }
    }

    /// A builtin runs in the shell itself. `exit` ends the shell with status
    /// 0; `cd` changes the directory, or reports why it cannot.
    pub open spec fn handle_builtin(self, builtin: BuiltinCommandView) -> (ShellView, ActionView) {
        match builtin {
            BuiltinCommandView::Exit => self.ask(
                PhaseView::Stopped,
                ActionView::Exit { notice: "exit"@, status: 0 },
            ),
            BuiltinCommandView::Cd(args) => match cd_target_of(args, self.env) {
                Ok(path) => self.ask(
                    PhaseView::ChangingDirectory,
                    ActionView::ChangeDirectory { path },
                ),
                Err(e) => self.report(e.message_text()),
            },
        }
    }

    /// A program runs in a child of its own, as the one foreground job.
    pub open spec fn spawn_foreground(self, command: ExternalCommandView) -> (
        ShellView,
        ActionView,
    ) {
        self.ask(PhaseView::Forking(command), ActionView::Fork)
    }

    pub open spec fn execute(self, command: CommandView) -> (ShellView, ActionView) {
        match command {
            CommandView::Builtin(builtin) => self.handle_builtin(builtin),
            CommandView::External(external) => self.spawn_foreground(external),
        }
    }

    /// The answer to what was read: the end of the input ends the shell with
    /// status 0, a line without a word is passed over, any other line is
    /// parsed and executed.
    pub open spec fn run(self, event: EventView) -> (ShellView, ActionView) {
        match event {
            EventView::EndOfInput => self.ask(
                PhaseView::Stopped,
                ActionView::Exit { notice: "\nexit"@, status: 0 },
            ),
            EventView::Line(text) => match command_of(arguments(lex(text), self.env)) {
                Some(command) => self.execute(command),
                None => self.read_on(),
            },
            _ => self.abort(Fatal::Input),
        }
    }

    /// The foreground job, once the child exists. The parent puts the child
    /// into a group of its own, hands the terminal to that group, waits, and
    /// takes the terminal back; only a failed wait stops it. The child leaves
    /// the shell's group and becomes the program, or says that it cannot and
    /// ends with [`NOT_FOUND_STATUS`].
    pub open spec fn foreground_job(self, event: EventView) -> (ShellView, ActionView) {
        match self.phase {
            PhaseView::Forking(command) => match event {
                EventView::Parent(child) => self.ask(
                    PhaseView::GroupingChild(child),
                    ActionView::SetProcessGroup { pid: child, pgid: child },
                ),
                EventView::Child => self.ask(
                    PhaseView::Detaching(command),
                    ActionView::SetProcessGroup { pid: 0, pgid: 0 },
                ),
                EventView::Failed(_) => self.report("Fork failed"@),
                _ => self.abort(Fatal::Unexpected),
            },
            PhaseView::GroupingChild(child) => (ShellView {
                foreground: Foreground::Child(child),
                ..self
            }).ask(PhaseView::HandingOver(child), ActionView::SetForeground { pgid: child }),
            PhaseView::HandingOver(child) => self.ask(
                PhaseView::Waiting(child),
                ActionView::Wait { pid: child },
            ),
            PhaseView::Waiting(child) => match event {
                EventView::Waited(status) => (ShellView { last_status: status, ..self }).ask(
                    PhaseView::FindingGroup,
                    ActionView::GetProcessGroup,
                ),
                _ => self.abort(Fatal::Wait),
            },
            PhaseView::FindingGroup => match event {
                EventView::ProcessId(pgid) => self.ask(
                    PhaseView::Reclaiming,
                    ActionView::SetForeground { pgid },
                ),
                _ => self.abort(Fatal::Unexpected),
            },
            PhaseView::Reclaiming => (ShellView { foreground: Foreground::Shell, ..self }).read_on(),
            PhaseView::Detaching(command) => self.ask(
                PhaseView::Executing,
                ActionView::Exec { program: command.program, argv: command.argv },
            ),
            PhaseView::Executing => self.ask(
                PhaseView::Complaining,
                ActionView::Write { text: "command not found\n"@ },
            ),
            PhaseView::Complaining => self.ask(
                PhaseView::Stopped,
                ActionView::ExitNow { status: NOT_FOUND_STATUS },
            ),
            _ => self.abort(Fatal::Unexpected),
        }
    }

    /// The next state and the next action, given what came of the last one.
    pub open spec fn step(self, event: EventView) -> (ShellView, ActionView) {
        match self.phase {
            PhaseView::Created
            | PhaseView::IgnoringTerminalOutput
            | PhaseView::IgnoringTerminalStop
            | PhaseView::FindingSelf
            | PhaseView::LeadingGroup
            | PhaseView::TakingTerminal => self.bootstrap(event),
            PhaseView::Reading => self.run(event),
            PhaseView::Reporting => self.read_on(),
            PhaseView::ChangingDirectory => match event {
                EventView::Failed(how) => self.report("cd: "@ + how),
                _ => self.read_on(),
            },
            PhaseView::Stopped => self.abort(Fatal::Unexpected),
            _ => self.foreground_job(event),
        }
    }
}

impl ShellView {
    /// Whether this is the child's side of a foreground job.
    pub open spec fn in_child(self) -> bool {
        self.phase is Detaching || self.phase is Executing || self.phase is Complaining
    }

    /// The terminal is where the phase says: unclaimed during startup, with
    /// the foreground job from the handing over until the taking back, and
    /// with the shell at every other time.
    pub open spec fn terminal_in_place(self) -> bool {
        match self.phase {
            PhaseView::Created
            | PhaseView::IgnoringTerminalOutput
            | PhaseView::IgnoringTerminalStop
            | PhaseView::FindingSelf
            | PhaseView::LeadingGroup
            | PhaseView::TakingTerminal => self.foreground == Foreground::Unclaimed,
            PhaseView::Reading
            | PhaseView::Reporting
            | PhaseView::ChangingDirectory
            | PhaseView::Forking(_)
            | PhaseView::GroupingChild(_) => self.foreground == Foreground::Shell,
            PhaseView::HandingOver(child) | PhaseView::Waiting(child) => self.foreground
                == Foreground::Child(child),
            PhaseView::FindingGroup | PhaseView::Reclaiming => self.foreground is Child,
            PhaseView::Detaching(_)
            | PhaseView::Executing
            | PhaseView::Complaining
            | PhaseView::Stopped => true,
        }
    }
}

/// The terminal comes back on every path: a step keeps the terminal where the
/// phase says, so whenever the shell reads a line, it holds the terminal.
pub proof fn lemma_terminal_comes_back(shell: ShellView, event: EventView)
    requires
        shell.terminal_in_place(),
    ensures
        shell.step(event).0.terminal_in_place(),
        shell.step(event).1 == ActionView::ReadLine ==> shell.step(event).0.foreground
            == Foreground::Shell,
{
}

/// The shell ends with status 0 and on nothing but `exit` or the end of the
/// input; a process that ends at once is a child that could not run its
/// program, and ends with [`NOT_FOUND_STATUS`].
pub proof fn lemma_exit_statuses(shell: ShellView, event: EventView)
    ensures
        shell.step(event).1 matches ActionView::Exit { status, .. } ==> status == 0
            && shell.phase == PhaseView::Reading,
        shell.step(event).1 matches ActionView::ExitNow { status } ==> status == NOT_FOUND_STATUS
            && shell.phase == PhaseView::Complaining,
{
}

/// The child's side never comes back to the shell's loop: it stays the
/// child's side until the process is asked to end.
pub proof fn lemma_child_never_returns(shell: ShellView, event: EventView)
    requires
        shell.in_child(),
    ensures
        shell.step(event).0.in_child() || shell.step(event).0.phase == PhaseView::Stopped,
{
}

/// One job at a time: a child is created only in answer to a line, and while
/// a child is awaited nothing but its end makes the shell go on.
pub proof fn lemma_one_job_at_a_time(shell: ShellView, event: EventView)
    ensures
        shell.step(event).1 == ActionView::Fork ==> shell.phase == PhaseView::Reading
            && event is Line,
        shell.phase is Waiting && !(event is Waited) ==> shell.step(event) == shell.abort(
            Fatal::Wait,
        ),
{
}

/// Errors of `cd` and a failed fork do not end the shell: after the report it
/// reads the next line, with its state as it was.
pub proof fn lemma_reported_errors_pass(shell: ShellView, event: EventView, after: EventView)
    requires
        shell.step(event).1 is Report,
    ensures
        shell.step(event).0.step(after) == (ShellView { phase: PhaseView::Reading, ..shell }, ActionView::ReadLine),
{
}

/// An interactive shell session.
pub struct Shell {
    parser: Parser,
    env: Environment,
    shell_pid: i32,
    last_status: i32,
    foreground: Foreground,
    phase: Phase,
}

impl View for Shell {
    type V = ShellView;

    closed spec fn view(&self) -> ShellView {
        ShellView {
            env: self.env@,
            shell_pid: self.shell_pid,
            last_status: self.last_status,
            foreground: self.foreground,
            phase: self.phase@,
        }
    }
}

impl Shell {
    /// A session that has done nothing yet and reads its variables from
    /// `env`. Fails exactly when the parser cannot be made.
    pub fn new(env: Environment) -> (shell: Result<Shell, InvalidPattern>)
        ensures
            shell is Ok <==> regex_of(VARIABLE_PATTERN@) is Some,
            shell matches Ok(s) ==> s@ == (ShellView {
                env: env@,
                shell_pid: 0,
                last_status: 0,
                foreground: Foreground::Unclaimed,
                phase: PhaseView::Created,
            }),
            shell matches Ok(s) ==> s@.terminal_in_place(),
    {
        match Parser::new() {
            Ok(parser) => Ok(
                Shell {
                    parser,
                    env,
                    shell_pid: 0,
                    last_status: 0,
                    foreground: Foreground::Unclaimed,
                    phase: Phase::Created,
                },
            ),
            Err(e) => Err(e),
        }
    }

    /// The shell's process id, once it is known; 0 before.
    pub fn shell_pid(&self) -> (pid: i32)
        ensures
            pid == self@.shell_pid,
    {
        self.shell_pid
    }

    /// The status of the last foreground job; 0 before the first.
    pub fn last_status(&self) -> (status: i32)
        ensures
            status == self@.last_status,
    {
        self.last_status
    }

    /// The process group that the terminal was last handed to.
    pub fn foreground(&self) -> (foreground: Foreground)
        ensures
            foreground == self@.foreground,
    {
        self.foreground
    }

    /// Where the shell stands.
    pub fn phase(&self) -> (phase: &Phase)
        ensures
            phase@ == self@.phase,
    {
        &self.phase
    }

    fn ask(&mut self, phase: Phase, action: Action) -> (asked: Action)
        ensures
            (final(self)@, asked@) == old(self)@.ask(phase@, action@),
    {
        self.phase = phase;
        action
    }

    fn abort(&mut self, fatal: Fatal) -> (action: Action)
        ensures
            (final(self)@, action@) == old(self)@.abort(fatal),
    {
        self.ask(Phase::Stopped, Action::Abort(fatal))
    }

    fn read_on(&mut self) -> (action: Action)
        ensures
            (final(self)@, action@) == old(self)@.read_on(),
    {
        self.ask(Phase::Reading, Action::ReadLine)
    }

    fn report(&mut self, message: String) -> (action: Action)
        ensures
            (final(self)@, action@) == old(self)@.report(message@),
    {
        self.ask(Phase::Reporting, Action::Report { message })
    }

    fn bootstrap(&mut self, phase: Phase, event: Event) -> (action: Action)
        ensures
            (final(self)@, action@) == (ShellView { phase: phase@, ..old(self)@ }).bootstrap(
                event@,
            ),
    {
        match (phase, event) {
            (Phase::Created, Event::Start) => self.ask(
                Phase::IgnoringTerminalOutput,
                Action::IgnoreSignal(Signal::TerminalOutput),
            ),
            (Phase::Created, _) => self.abort(Fatal::Unexpected),
            (Phase::IgnoringTerminalOutput, Event::Done) => self.ask(
                Phase::IgnoringTerminalStop,
                Action::IgnoreSignal(Signal::TerminalStop),
            ),
            (Phase::IgnoringTerminalStop, Event::Done) => self.ask(
                Phase::FindingSelf,
                Action::GetProcessId,
            ),
            (Phase::FindingSelf, Event::ProcessId(pid)) => {
                self.shell_pid = pid;
                self.ask(Phase::LeadingGroup, Action::SetProcessGroup { pid, pgid: pid })
            },
            (Phase::LeadingGroup, Event::Done) => {
                let pgid = self.shell_pid;
                self.ask(Phase::TakingTerminal, Action::SetForeground { pgid })
            },
            (Phase::TakingTerminal, Event::Done) => {
                self.foreground = Foreground::Shell;
                self.read_on()
            },
            _ => self.abort(Fatal::Startup),
        }
    }

    fn handle_builtin(&mut self, builtin: BuiltinCommand) -> (action: Action)
        ensures
            (final(self)@, action@) == old(self)@.handle_builtin(builtin@),
    {
        match builtin {
            BuiltinCommand::Exit => self.ask(
                Phase::Stopped,
                Action::Exit { notice: "exit".to_owned(), status: 0 },
            ),
            BuiltinCommand::Cd(args) => match cd_target(&args, &self.env) {
                Ok(path) => self.ask(Phase::ChangingDirectory, Action::ChangeDirectory { path }),
                Err(e) => self.report(e.message()),
            },
        }
    }

    fn spawn_foreground(&mut self, command: ExternalCommand) -> (action: Action)
        ensures
            (final(self)@, action@) == old(self)@.spawn_foreground(command@),
    {
        self.ask(Phase::Forking(command), Action::Fork)
    }

    fn execute(&mut self, command: Command) -> (action: Action)
        ensures
            (final(self)@, action@) == old(self)@.execute(command@),
    {
        match command {
            Command::Builtin(builtin) => self.handle_builtin(builtin),
            Command::External(external) => self.spawn_foreground(external),
        }
    }

    fn run(&mut self, event: Event) -> (action: Action)
        ensures
            (final(self)@, action@) == old(self)@.run(event@),
    {
        match event {
            Event::EndOfInput => self.ask(
                Phase::Stopped,
                Action::Exit { notice: "\nexit".to_owned(), status: 0 },
            ),
            Event::Line(text) => {
                let tokens = self.parser.tokenize(text.as_str());
                match self.parser.parse(tokens, &self.env) {
                    Some(command) => self.execute(command),
                    None => self.read_on(),
                }
            },
            _ => self.abort(Fatal::Input),
        }
    }

    fn foreground_job(&mut self, phase: Phase, event: Event) -> (action: Action)
        ensures
            (final(self)@, action@) == (ShellView { phase: phase@, ..old(self)@ }).foreground_job(
                event@,
            ),
    {
        match phase {
            Phase::Forking(command) => match event {
                Event::Parent(child) => self.ask(
                    Phase::GroupingChild(child),
                    Action::SetProcessGroup { pid: child, pgid: child },
                ),
                Event::Child => self.ask(
                    Phase::Detaching(command),
                    Action::SetProcessGroup { pid: 0, pgid: 0 },
                ),
                Event::Failed(_) => self.report("Fork failed".to_owned()),
                _ => self.abort(Fatal::Unexpected),
            },
            Phase::GroupingChild(child) => {
                self.foreground = Foreground::Child(child);
                self.ask(Phase::HandingOver(child), Action::SetForeground { pgid: child })
            },
            Phase::HandingOver(child) => self.ask(Phase::Waiting(child), Action::Wait { pid: child }),
            Phase::Waiting(child) => match event {
                Event::Waited(status) => {
                    self.last_status = status;
                    self.ask(Phase::FindingGroup, Action::GetProcessGroup)
                },
                _ => self.abort(Fatal::Wait),
            },
            Phase::FindingGroup => match event {
                Event::ProcessId(pgid) => self.ask(
                    Phase::Reclaiming,
                    Action::SetForeground { pgid },
                ),
                _ => self.abort(Fatal::Unexpected),
            },
            Phase::Reclaiming => {
                self.foreground = Foreground::Shell;
                self.read_on()
            },
            Phase::Detaching(command) => {
                let (program, argv) = command.into_parts();
                self.ask(Phase::Executing, Action::Exec { program, argv })
            },
            Phase::Executing => self.ask(
                Phase::Complaining,
                Action::Write { text: "command not found\n".to_owned() },
            ),
            Phase::Complaining => self.ask(
                Phase::Stopped,
                Action::ExitNow { status: NOT_FOUND_STATUS },
            ),
            _ => self.abort(Fatal::Unexpected),
        }
    }

    /// Takes what came of the last action and says what to do next. The
    /// terminal stays where the phase says: a shell that is asked to read a
    /// line holds it.
    pub fn step(&mut self, event: Event) -> (action: Action)
        ensures
            (final(self)@, action@) == old(self)@.step(event@),
            old(self)@.terminal_in_place() ==> final(self)@.terminal_in_place(),
            old(self)@.terminal_in_place() && action@ == ActionView::ReadLine
                ==> final(self)@.foreground == Foreground::Shell,
    {
        proof {
            if self@.terminal_in_place() {
                lemma_terminal_comes_back(self@, event@);
            }
        }
        let mut phase = Phase::Stopped;
        std::mem::swap(&mut self.phase, &mut phase);
        assert(old(self)@ == (ShellView { phase: phase@, ..self@ }));
        match phase {
            Phase::Created
            | Phase::IgnoringTerminalOutput
            | Phase::IgnoringTerminalStop
            | Phase::FindingSelf
            | Phase::LeadingGroup
            | Phase::TakingTerminal => self.bootstrap(phase, event),
            Phase::Reading => self.run(event),
            Phase::Reporting => self.read_on(),
            Phase::ChangingDirectory => match event {
                Event::Failed(how) => self.report("cd: ".to_owned().concat(how.as_str())),
                _ => self.read_on(),
            },
            Phase::Stopped => self.abort(Fatal::Unexpected),
            _ => self.foreground_job(phase, event),
        }
    }
}

} // verus!
