//! The plugin's commands: what each one decides, given its arguments and the
//! registry of pipes.

pub mod drop;
pub mod get_pipe;
pub mod list;
pub mod new;
pub mod read;
pub mod recv;
pub mod write;

use vstd::prelude::*;
use crate::pipe_arg::{PipeArgValue, PipeArgAllowedTypes, PipeArgError, spec_pipe_arg};
use crate::pipe_id::PipeId;
use crate::state::PipeState;

verus! {

/// Why a command fails.
#[derive(Debug, Clone, Copy, PartialEq, Eq, Structural)]
pub enum CommandError {
    /// The argument naming the pipe was not given.
    MissingPipeArgument,
    /// The argument naming the pipe names none.
    InvalidPipeArgument,
    /// `pipe close` found no pipe of that name.
    PipeDoesNotExist,
    /// A command found no pipe of that name to work on.
    PipeNotFound,
    /// `pipe get` was given no name.
    MissingNameArgument,
    /// `pipe get` was given a name that is not a string.
    NameNotString,
    /// `pipe get` found no pipe of that name.
    PipeGone,
    /// `pipe new` was asked to fail on a name that is taken, and it is.
    NameExists,
    /// `pipe new` could not draw a free name.
    NoFreeName,
    /// `pipe read` was given a negative count.
    NegativeCount,
    /// `pipe read` was given a condition that is neither a count, a closure
    /// nor nothing.
    InvalidCondition,
    /// `pipe write` found nobody left to read the pipe.
    WriteFailed,
}

/// The message each error is shown with.
pub open spec fn spec_message(e: CommandError) -> Seq<char> {
    match e {
        CommandError::MissingPipeArgument => "Missing pipe argument"@,
        CommandError::InvalidPipeArgument => "argument is not a valid pipe input"@,
        CommandError::PipeDoesNotExist => "The pipe does not exist"@,
        CommandError::PipeNotFound => "pipe does not exist or is closed"@,
        CommandError::MissingNameArgument => "Missing name arg"@,
        CommandError::NameNotString => "name arg is not a string"@,
        CommandError::PipeGone => "pipe with that name either does not exist or has been closed"@,
        CommandError::NameExists => "a pipe with that name already exists"@,
        CommandError::NoFreeName => "failed to create a name"@,
        CommandError::NegativeCount => "Condition number cant be negative"@,
        CommandError::InvalidCondition => "Condition has invalid type."@,
        CommandError::WriteFailed => "something happened. Probably the pipe was closed somewhere."@,
    }
}

impl CommandError {
    /// The message the error is shown with.
    pub fn message(&self) -> (res: &'static str)
        ensures
            res@ == spec_message(*self),
    {
        match self {
            CommandError::MissingPipeArgument => "Missing pipe argument",
            CommandError::InvalidPipeArgument => "argument is not a valid pipe input",
            CommandError::PipeDoesNotExist => "The pipe does not exist",
            CommandError::PipeNotFound => "pipe does not exist or is closed",
            CommandError::MissingNameArgument => "Missing name arg",
            CommandError::NameNotString => "name arg is not a string",
            CommandError::PipeGone => "pipe with that name either does not exist or has been closed",
            CommandError::NameExists => "a pipe with that name already exists",
            CommandError::NoFreeName => "failed to create a name",
            CommandError::NegativeCount => "Condition number cant be negative",
            CommandError::InvalidCondition => "Condition has invalid type.",
            CommandError::WriteFailed => "something happened. Probably the pipe was closed somewhere.",
        }
    }

    /// The label put on the offending argument, for the errors that have one.
    pub fn label(&self) -> (res: Option<&'static str>)
        ensures
            *self == CommandError::InvalidPipeArgument ==> (res matches Some(l) && l@ == "here"@),
            *self == CommandError::MissingNameArgument ==> (res matches Some(l) && l@
                == "this motherfucker"@),
            *self != CommandError::InvalidPipeArgument && *self != CommandError::MissingNameArgument
                ==> res is None,
    {
        match self {
            CommandError::InvalidPipeArgument => Some("here"),
            CommandError::MissingNameArgument => Some("this motherfucker"),
            _ => None,
        }
    }
}

/// Maps the argument error onto the command error.
pub fn from_pipe_arg_error(e: PipeArgError) -> (res: CommandError)
    ensures
        res == CommandError::InvalidPipeArgument,
{
    match e {
        PipeArgError::NotAPipe => CommandError::InvalidPipeArgument,
    }
}

/// The name that a command's pipe argument gives, under the allowed kinds
/// of value: a missing argument and one that names no pipe are errors.
pub fn resolve_name(arg: Option<PipeArgValue>, allowed: &PipeArgAllowedTypes) -> (res: Result<
    PipeId,
    CommandError,
>)
    ensures
        arg is None ==> res == Err::<PipeId, CommandError>(CommandError::MissingPipeArgument),
        arg matches Some(v) ==> match spec_pipe_arg(v, *allowed) {
            None => res == Err::<PipeId, CommandError>(CommandError::InvalidPipeArgument),
            Some(name) => res matches Ok(id) && id@ == name,
        },
{
    let value = match arg {
        Some(v) => v,
        None => return Err(CommandError::MissingPipeArgument),
    };
    match allowed.parse_value(value) {
        Ok(id) => Ok(id),
        Err(e) => Err(from_pipe_arg_error(e)),
    }
}

/// The pipe that a command's pipe argument names, under the allowed kinds
/// of value: missing argument, an argument that names no pipe, and a name
/// with no pipe registered are errors, in that order.
pub fn resolve_pipe<'a, P>(
    state: &'a PipeState<P>,
    arg: Option<PipeArgValue>,
    allowed: &PipeArgAllowedTypes,
) -> (res: Result<(PipeId, &'a P), CommandError>)
    ensures
        arg is None ==> res == Err::<(PipeId, &'a P), CommandError>(
            CommandError::MissingPipeArgument,
        ),
        arg matches Some(v) ==> match spec_pipe_arg(v, *allowed) {
            None => res == Err::<(PipeId, &'a P), CommandError>(CommandError::InvalidPipeArgument),
            Some(name) => if state@.dom().contains(name) {
                res matches Ok((id, p)) && id@ == name && *p == state@[name]
            } else {
                res == Err::<(PipeId, &'a P), CommandError>(CommandError::PipeNotFound)
            },
        },
{
    let id = match resolve_name(arg, allowed) {
        Ok(id) => id,
        Err(e) => return Err(e),
    };
    match state.get_pipe(&id) {
        Some(p) => Ok((id, p)),
        None => Err(CommandError::PipeNotFound),
    }
}

} // verus!
