//! The builtin `cd`: which directory a `cd` command names.

use vstd::prelude::*;
use crate::command::texts;
use crate::environment::Environment;

verus! {

/// Why a `cd` command names no directory.
#[derive(Debug, Clone, Copy, PartialEq, Eq, Structural)]
pub enum CdError {
    /// `cd` stood alone and `HOME` is unset.
    HomeNotSet,
    /// The argument vector does not hold `cd` and at most one directory.
    TooManyArguments,
}

impl CdError {
    /// The diagnostic for the user.
    pub open spec fn message_text(self) -> Seq<char> {
        match self {
            CdError::HomeNotSet => "cd: HOME is not set"@,
            CdError::TooManyArguments => "cd: too many arguments"@,
        }
    }

    /// The diagnostic for the user.
    pub fn message(&self) -> (message: String)
        ensures
            message@ == self.message_text(),
    {
        match self {
            CdError::HomeNotSet => "cd: HOME is not set".to_owned(),
            CdError::TooManyArguments => "cd: too many arguments".to_owned(),
        }
    }
}

/// The directory that a `cd` command with the argument vector `args` (`cd`
/// itself included) changes to: its one argument; `HOME` when it has none; an
/// error for any other number of arguments, and when `HOME` is needed and
/// unset.
pub open spec fn cd_target_of(args: Seq<Seq<char>>, env: Map<Seq<char>, Seq<char>>) -> Result<
    Seq<char>,
    CdError,
> {
    if args.len() == 2 {
        Ok(args[1])
    } else if args.len() == 1 {
        if env.contains_key("HOME"@) {
            Ok(env["HOME"@])
        } else {
            Err(CdError::HomeNotSet)
        }
    } else {
        Err(CdError::TooManyArguments)
    }
}

/// Decides [`cd_target_of`].
pub fn cd_target(args: &Vec<String>, env: &Environment) -> (target: Result<String, CdError>)
    ensures
        match target {
            Ok(path) => cd_target_of(texts(args@), env@) == Ok::<Seq<char>, CdError>(path@),
            Err(e) => cd_target_of(texts(args@), env@) == Err::<Seq<char>, CdError>(e),
        },
{
    if args.len() == 2 {
        Ok(args[1].clone())
    } else if args.len() == 1 {
        match env.get("HOME") {
            Some(home) => Ok(home),
            None => Err(CdError::HomeNotSet),
        }
    } else {
        Err(CdError::TooManyArguments)
    }
}

} // verus!
