//! Commands: what a parsed line asks the shell to do.

use vstd::prelude::*;

verus! {

/// The texts of a sequence of strings, in order.
pub open spec fn texts(strings: Seq<String>) -> Seq<Seq<char>> {
    strings.map_values(|s: String| s@)
}

/// A program to run in a child process.
#[derive(Debug, Clone, PartialEq, Eq)]
pub struct ExternalCommand {
    cmd: String,
    args: Vec<String>,
}

/// The mathematical value of an [`ExternalCommand`].
pub struct ExternalCommandView {
    /// The program's name, as it was written.
    pub program: Seq<char>,
    /// The whole argument vector, the program's name included.
    pub argv: Seq<Seq<char>>,
}

impl View for ExternalCommand {
    type V = ExternalCommandView;

    closed spec fn view(&self) -> ExternalCommandView {
        ExternalCommandView { program: self.cmd@, argv: texts(self.args@) }
    }
}

impl ExternalCommand {
    pub fn new(cmd: String, args: Vec<String>) -> (command: ExternalCommand)
        ensures
            command@ == (ExternalCommandView { program: cmd@, argv: texts(args@) }),
    {
        ExternalCommand { cmd, args }
    }

    /// The program's name.
    pub fn program(&self) -> (program: &String)
        ensures
            program@ == self@.program,
    {
        &self.cmd
    }

    /// The argument vector.
    pub fn argv(&self) -> (argv: &Vec<String>)
        ensures
            texts(argv@) == self@.argv,
    {
        &self.args
    }

    /// The program's name and the argument vector.
    pub fn into_parts(self) -> (parts: (String, Vec<String>))
        ensures
            parts.0@ == self@.program,
            texts(parts.1@) == self@.argv,
    {
        (self.cmd, self.args)
    }
}

/// A command the shell carries out itself.
#[derive(Debug, Clone, PartialEq, Eq)]
pub enum BuiltinCommand {
    /// Leave the shell.
    Exit,
    /// Change the working directory. Holds the whole argument vector, `cd`
    /// included.
    Cd(Vec<String>),
}

/// The mathematical value of a [`BuiltinCommand`].
pub enum BuiltinCommandView {
    Exit,
    Cd(Seq<Seq<char>>),
}

impl View for BuiltinCommand {
    type V = BuiltinCommandView;

    open spec fn view(&self) -> BuiltinCommandView {
        match *self {
            BuiltinCommand::Exit => BuiltinCommandView::Exit,
            BuiltinCommand::Cd(args) => BuiltinCommandView::Cd(texts(args@)),
        }
    }
}

/// A parsed line.
#[derive(Debug, Clone, PartialEq, Eq)]
pub enum Command {
    Builtin(BuiltinCommand),
    External(ExternalCommand),
}

/// The mathematical value of a [`Command`].
pub enum CommandView {
    Builtin(BuiltinCommandView),
    External(ExternalCommandView),
}

impl View for Command {
    type V = CommandView;

    open spec fn view(&self) -> CommandView {
        match *self {
            Command::Builtin(builtin) => CommandView::Builtin(builtin@),
            Command::External(external) => CommandView::External(external@),
        }
    }
}

/// The command that an argument vector stands for: none when there is no
/// argument, else the first argument decides.
pub open spec fn command_of(args: Seq<Seq<char>>) -> Option<CommandView> {
    if args.len() == 0 {
        None
    } else if args[0] == "exit"@ {
        Some(CommandView::Builtin(BuiltinCommandView::Exit))
    } else if args[0] == "cd"@ {
        Some(CommandView::Builtin(BuiltinCommandView::Cd(args)))
    } else {
        Some(CommandView::External(ExternalCommandView { program: args[0], argv: args }))
    }
}

/// No arguments, no command. A command that is not a builtin runs the program
/// that the first argument names, and its argument vector is the whole of
/// `args`: it is never empty and starts with the program's name.
pub proof fn lemma_command_of(args: Seq<Seq<char>>)
    ensures
        command_of(args) is None <==> args.len() == 0,
        command_of(args) matches Some(CommandView::External(external)) ==> external.argv == args
            && external.argv.len() > 0 && external.argv[0] == external.program,
        command_of(args) matches Some(CommandView::Builtin(BuiltinCommandView::Cd(kept)))
            ==> kept == args,
{
}

impl Command {
    /// The command that `args` stands for, if any.
    pub fn classify(args: Vec<String>) -> (command: Option<Command>)
        ensures
            command is Some <==> args@.len() > 0,
            match command {
                Some(c) => command_of(texts(args@)) == Some(c@),
                None => command_of(texts(args@)) is None,
            },
    {
        if args.len() == 0 {
            return None;
        }
        let first = args[0].clone();
        if first == "exit".to_owned() {
            Some(Command::Builtin(BuiltinCommand::Exit))
        } else if first == "cd".to_owned() {
            Some(Command::Builtin(BuiltinCommand::Cd(args)))
        } else {
            Some(Command::External(ExternalCommand::new(first, args)))
        }
    }
}

} // verus!
