use vstd::prelude::*;
use crate::cmds::{CommandError, resolve_pipe};
use crate::pipe::{Pipe, TrySendError};
use crate::pipe_arg::{PipeArgValue, PipeArgAllowedTypes, spec_pipe_arg, all_types};
use crate::pipe_id::PipeId;
use crate::state::PipeState;

verus! {

/// `pipe write`: writes the values streaming in into a pipe.
pub struct WriteIntoPipeCmd;

/// What a writer does after trying to put a value into a pipe.
#[derive(Debug)]
pub enum WriteStep<T> {
    /// The value is in; go on with the next one.
    Sent,
    /// The pipe is full: wait for a change of the pipe, then try this value
    /// again.
    Wait(T),
    /// The write failed; the command ends with this error.
    Failed(CommandError),
}

/// Where a value that went into a pipe stands.
#[derive(Debug, Clone, Copy, PartialEq, Eq, Structural)]
pub enum Delivery {
    /// The write is complete.
    Delivered,
    /// A pipe of size 0 still holds the value: wait for a reader to take it.
    Pending,
    /// A pipe of size 0 still holds the value and no reader is left.
    Lost,
}

impl WriteIntoPipeCmd {
    pub fn name(&self) -> (res: &'static str)
        ensures
            res@ == "pipe write"@,
    {
        "pipe write"
    }

    pub fn description(&self) -> (res: &'static str)
        ensures
            res@ == "writes values streaming to the pipe"@,
    {
        "writes values streaming to the pipe"
    }

    /// The kinds of value that may name the pipe to write into.
    pub fn allowed_types(&self) -> (res: PipeArgAllowedTypes)
        ensures
            res == all_types(),
    {
        PipeArgAllowedTypes::all().only_writers()
    }

    /// The pipe to write into; see `resolve_pipe`.
    pub fn resolve<'a, P>(&self, state: &'a PipeState<P>, pipe_arg: Option<PipeArgValue>) -> (res:
        Result<(PipeId, &'a P), CommandError>)
        ensures
            pipe_arg is None ==> res == Err::<(PipeId, &'a P), CommandError>(
                CommandError::MissingPipeArgument,
            ),
            pipe_arg matches Some(v) ==> match spec_pipe_arg(v, all_types()) {
                None => res == Err::<(PipeId, &'a P), CommandError>(
                    CommandError::InvalidPipeArgument,
                ),
                Some(name) => if state@.dom().contains(name) {
                    res matches Ok((id, p)) && id@ == name && *p == state@[name]
                } else {
                    res == Err::<(PipeId, &'a P), CommandError>(CommandError::PipeNotFound)
                },
            },
    {
        let allowed = self.allowed_types();
        resolve_pipe(state, pipe_arg, &allowed)
    }

    /// What follows an attempt to send a value: go on when it went in,
    /// wait and retry the same value when the pipe was full, fail when no
    /// reader is left.
    pub fn after_send<T>(&self, sent: Result<(), TrySendError<T>>) -> (res: WriteStep<T>)
        ensures
            match sent {
                Ok(()) => res is Sent,
                Err(TrySendError::Full(v)) => res == WriteStep::Wait(v),
                Err(TrySendError::Disconnected(_)) => res == WriteStep::<T>::Failed(
                    CommandError::WriteFailed,
                ),
            },
    {
        match sent {
            Ok(()) => WriteStep::Sent,
            Err(TrySendError::Full(v)) => WriteStep::Wait(v),
            Err(TrySendError::Disconnected(_)) => WriteStep::Failed(CommandError::WriteFailed),
        }
    }

    /// Whether a write that put a value into `pipe` when `ticket` values had
    /// been taken from it is complete. Into a buffered pipe it is complete at
    /// once; into a pipe of size 0 only once a reader has taken the value.
    pub fn delivery<T>(&self, pipe: &Pipe<T>, ticket: u64) -> (res: Delivery)
        ensures
            pipe.size() > 0 || pipe.taken_count() != ticket ==> res == Delivery::Delivered,
            pipe.size() == 0 && pipe.taken_count() == ticket && pipe.reader_count() == 0 ==> res
                == Delivery::Lost,
            pipe.size() == 0 && pipe.taken_count() == ticket && pipe.reader_count() > 0 ==> res
                == Delivery::Pending,
    {
        if pipe.capacity() > 0 || pipe.taken() != ticket {
            Delivery::Delivered
        } else if pipe.readers() == 0 {
            Delivery::Lost
        } else {
            Delivery::Pending
        }
    }
}

} // verus!
