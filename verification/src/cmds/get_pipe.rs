use vstd::prelude::*;
use crate::cmds::CommandError;
use crate::pipe_id::{PipeId, PipeValue, PipeReaderValue};
use crate::state::PipeState;

verus! {

/// The pipe name that a `pipe get` command was given: its first positional
/// argument (`None` when missing) as a string (`None` when it is not one).
pub open spec fn spec_get_target<P>(state: PipeState<P>, name_arg: Option<Option<String>>) -> Result<
    Seq<char>,
    CommandError,
> {
    match name_arg {
        None => Err(CommandError::MissingNameArgument),
        Some(None) => Err(CommandError::NameNotString),
        Some(Some(name)) => if state@.dom().contains(name@) {
            Ok(name@)
        } else {
            Err(CommandError::PipeGone)
        },
    }
}

/// Checks the name argument of a `pipe get` command and looks the pipe up.
fn get_target<P>(state: &PipeState<P>, name_arg: Option<Option<String>>) -> (res: Result<
    PipeId,
    CommandError,
>)
    ensures
        match spec_get_target(*state, name_arg) {
            Ok(name) => res matches Ok(id) && id@ == name,
            Err(e) => res == Err::<PipeId, CommandError>(e),
        },
        match name_arg {
            None => res == Err::<PipeId, CommandError>(CommandError::MissingNameArgument),
            Some(None) => res == Err::<PipeId, CommandError>(CommandError::NameNotString),
            Some(Some(n)) => if state@.dom().contains(n@) {
                res matches Ok(id) && id@ == n@
            } else {
                res == Err::<PipeId, CommandError>(CommandError::PipeGone)
            },
        },
{
    let name = match name_arg {
        None => return Err(CommandError::MissingNameArgument),
        Some(None) => return Err(CommandError::NameNotString),
        Some(Some(name)) => PipeId(name),
    };
    match state.get_pipe_value(&name) {
        Some(value) => Ok(value.0),
        None => Err(CommandError::PipeGone),
    }
}

/// `pipe get`: a handle to an existing pipe.
pub struct GetPipeCmd;

impl GetPipeCmd {
    pub fn name(&self) -> (res: &'static str)
        ensures
            res@ == "pipe get"@,
    {
        "pipe get"
    }

    pub fn description(&self) -> (res: &'static str)
        ensures
            res@ == "Gets a pipe for you, if it exists"@,
    {
        "Gets a pipe for you, if it exists"
    }

    /// A handle to the pipe of the given name.
    pub fn run<P>(&self, state: &PipeState<P>, name_arg: Option<Option<String>>) -> (res: Result<
        PipeValue,
        CommandError,
    >)
        ensures
            match spec_get_target(*state, name_arg) {
                Ok(name) => res matches Ok(v) && v.0@ == name,
                Err(e) => res == Err::<PipeValue, CommandError>(e),
            },
            match name_arg {
                None => res == Err::<PipeValue, CommandError>(CommandError::MissingNameArgument),
                Some(None) => res == Err::<PipeValue, CommandError>(CommandError::NameNotString),
                Some(Some(n)) => if state@.dom().contains(n@) {
                    res matches Ok(v) && v.0@ == n@
                } else {
                    res == Err::<PipeValue, CommandError>(CommandError::PipeGone)
                },
            },
    {
        match get_target(state, name_arg) {
            Ok(id) => Ok(PipeValue::new(id)),
            Err(e) => Err(e),
        }
    }
}

/// `pipe get --sender`: a handle for writing into an existing pipe.
pub struct GetPipeSenderCmd;

impl GetPipeSenderCmd {
    pub fn name(&self) -> (res: &'static str)
        ensures
            res@ == "pipe get --sender"@,
    {
        "pipe get --sender"
    }

    pub fn description(&self) -> (res: &'static str)
        ensures
            res@ == "Gets the sender to a pipe for you, if it exists."@,
    {
        "Gets the sender to a pipe for you, if it exists."
    }

    /// A handle for writing into the pipe of the given name: the pipe's own
    /// handle, which serves as a sender.
    pub fn run<P>(&self, state: &PipeState<P>, name_arg: Option<Option<String>>) -> (res: Result<
        PipeValue,
        CommandError,
    >)
        ensures
            match spec_get_target(*state, name_arg) {
                Ok(name) => res matches Ok(v) && v.0@ == name,
                Err(e) => res == Err::<PipeValue, CommandError>(e),
            },
            match name_arg {
                None => res == Err::<PipeValue, CommandError>(CommandError::MissingNameArgument),
                Some(None) => res == Err::<PipeValue, CommandError>(CommandError::NameNotString),
                Some(Some(n)) => if state@.dom().contains(n@) {
                    res matches Ok(v) && v.0@ == n@
                } else {
                    res == Err::<PipeValue, CommandError>(CommandError::PipeGone)
                },
            },
    {
        match get_target(state, name_arg) {
            Ok(id) => Ok(PipeValue::new(id)),
            Err(e) => Err(e),
        }
    }
}

/// `pipe get --receiver`: a handle for reading from an existing pipe.
pub struct GetPipeReceiverCmd;

impl GetPipeReceiverCmd {
    pub fn name(&self) -> (res: &'static str)
        ensures
            res@ == "pipe get --receiver"@,
    {
        "pipe get --receiver"
    }

    pub fn description(&self) -> (res: &'static str)
        ensures
            res@ == "Gets the receiver to a pipe for you, if it exists."@,
    {
        "Gets the receiver to a pipe for you, if it exists."
    }

    /// A reader handle to the pipe of the given name.
    pub fn run<P>(&self, state: &PipeState<P>, name_arg: Option<Option<String>>) -> (res: Result<
        PipeReaderValue,
        CommandError,
    >)
        ensures
            match spec_get_target(*state, name_arg) {
                Ok(name) => res matches Ok(v) && v.0@ == name,
                Err(e) => res == Err::<PipeReaderValue, CommandError>(e),
            },
            match name_arg {
                None => res == Err::<PipeReaderValue, CommandError>(CommandError::MissingNameArgument),
                Some(None) => res == Err::<PipeReaderValue, CommandError>(CommandError::NameNotString),
                Some(Some(n)) => if state@.dom().contains(n@) {
                    res matches Ok(v) && v.0@ == n@
                } else {
                    res == Err::<PipeReaderValue, CommandError>(CommandError::PipeGone)
                },
            },
    {
        match get_target(state, name_arg) {
            Ok(id) => Ok(PipeReaderValue(id)),
            Err(e) => Err(e),
        }
    }
}

} // verus!
