use vstd::prelude::*;
use crate::cmds::{CommandError, resolve_pipe, resolve_name};
use crate::pipe_arg::{PipeArgValue, PipeArgAllowedTypes, spec_pipe_arg, all_types};
use crate::pipe_id::PipeId;
use crate::read::PipeReaderReadCondition;
use crate::state::PipeState;

verus! {

/// `pipe recv`: takes a single value from a pipe.
pub struct RecvFromPipeCmd;

impl RecvFromPipeCmd {
    pub fn name(&self) -> (res: &'static str)
        ensures
            res@ == "pipe recv"@,
    {
        "pipe recv"
    }

    pub fn description(&self) -> (res: &'static str)
        ensures
            res@ == "Receives a single value from the named pipe"@,
    {
        "Receives a single value from the named pipe"
    }

    /// The kinds of value that may name the pipe to read from.
    pub fn allowed_types(&self) -> (res: PipeArgAllowedTypes)
        ensures
            res == all_types(),
    {
        PipeArgAllowedTypes::all().only_readers()
    }

    /// The pipe to take a value from; see `resolve_pipe`.
    pub fn resolve<'a, P>(&self, state: &'a PipeState<P>, pipe_arg: Option<PipeArgValue>) -> (res:
        Result<(PipeId, &'a P), CommandError>)
        ensures
            pipe_arg is None ==> res == Err::<(PipeId, &'a P), CommandError>(
                CommandError::MissingPipeArgument,
            ),
            pipe_arg matches Some(v) ==> match spec_pipe_arg(v, all_types()) {
                None => res == Err::<(PipeId, &'a P), CommandError>(
                    CommandError::InvalidPipeArgument,
                ),
                Some(name) => if state@.dom().contains(name) {
                    res matches Ok((id, p)) && id@ == name && *p == state@[name]
                } else {
                    res == Err::<(PipeId, &'a P), CommandError>(CommandError::PipeNotFound)
                },
            },
    {
        let allowed = self.allowed_types();
        resolve_pipe(state, pipe_arg, &allowed)
    }

    /// What the command gives once the pipe answered: the value taken, or,
    /// when the pipe turned out closed and empty (`None`), nothing, after
    /// dropping the pipe from the registry.
    pub fn finish<P, T>(&self, state: &mut PipeState<P>, id: &PipeId, received: Option<T>) -> (res:
        Option<T>)
        ensures
            res == received,
            received is None ==> final(state)@ == old(state)@.remove(id@),
            received is Some ==> final(state)@ == old(state)@,
    {
        match received {
            None => {
                state.drop_pipe(id);
                None
            },
            Some(value) => Some(value),
        }
    }
}

/// What the optional condition argument of `pipe read` is.
pub enum ConditionArg<F> {
    /// An integer.
    Int(i64),
    /// A closure, to be run on each value as a filter.
    Closure(F),
    /// Nothing (also when the argument is left out).
    Nothing,
    /// Any other kind of value.
    Other,
}

/// `pipe read`: streams values from a pipe, as many as its condition lets.
pub struct ReadFromPipeCmd;

impl ReadFromPipeCmd {
    pub fn name(&self) -> (res: &'static str)
        ensures
            res@ == "pipe read"@,
    {
        "pipe read"
    }

    pub fn description(&self) -> (res: &'static str)
        ensures
            res@ == "Receives values from the named pipe.  It is important to note that, because of the way the nu engine works, this reader is STILL A BIT PROBLEMATIC AND WILL READ THE ENTIRE PIPE, EVEN IF YOU JUST WANT TO TAKE THE PART OF THE ELEMENTS. To help with that, an additional condition argument can be passed to determine when to stop taking items with precision."@,
    {
        "Receives values from the named pipe.  It is important to note that, because of the way the nu engine works, this reader is STILL A BIT PROBLEMATIC AND WILL READ THE ENTIRE PIPE, EVEN IF YOU JUST WANT TO TAKE THE PART OF THE ELEMENTS. To help with that, an additional condition argument can be passed to determine when to stop taking items with precision."
    }

    /// The kinds of value that may name the pipe to read from.
    pub fn allowed_types(&self) -> (res: PipeArgAllowedTypes)
        ensures
            res == all_types(),
    {
        PipeArgAllowedTypes::all().only_readers()
    }

    /// The read condition that the argument asks for: a count for a
    /// non-negative integer, a filter for a closure, none for nothing. A
    /// negative integer and any other value are errors.
    pub fn condition<F>(&self, arg: ConditionArg<F>) -> (res: Result<
        Option<PipeReaderReadCondition<F>>,
        CommandError,
    >)
        ensures
            match arg {
                ConditionArg::Int(n) => if n >= 0 {
                    res matches Ok(Some(PipeReaderReadCondition::Count(c))) && c == n as usize
                } else {
                    res == Err::<Option<PipeReaderReadCondition<F>>, CommandError>(
                        CommandError::NegativeCount,
                    )
                },
                ConditionArg::Closure(f) => res == Ok::<
                    Option<PipeReaderReadCondition<F>>,
                    CommandError,
                >(Some(PipeReaderReadCondition::Filter(f))),
                ConditionArg::Nothing => res == Ok::<
                    Option<PipeReaderReadCondition<F>>,
                    CommandError,
                >(None),
                ConditionArg::Other => res == Err::<
                    Option<PipeReaderReadCondition<F>>,
                    CommandError,
                >(CommandError::InvalidCondition),
            },
    {
        match arg {
            ConditionArg::Int(val) => {
                if val >= 0 {
                    Ok(Some(PipeReaderReadCondition::Count(val as usize)))
                } else {
                    Err(CommandError::NegativeCount)
                }
            },
            ConditionArg::Closure(f) => Ok(Some(PipeReaderReadCondition::Filter(f))),
            ConditionArg::Nothing => Ok(None),
            ConditionArg::Other => Err(CommandError::InvalidCondition),
        }
    }

    /// The pipe to read from; see `resolve_pipe`.
    pub fn resolve<'a, P>(&self, state: &'a PipeState<P>, pipe_arg: Option<PipeArgValue>) -> (res:
        Result<(PipeId, &'a P), CommandError>)
        ensures
            pipe_arg is None ==> res == Err::<(PipeId, &'a P), CommandError>(
                CommandError::MissingPipeArgument,
            ),
            pipe_arg matches Some(v) ==> match spec_pipe_arg(v, all_types()) {
                None => res == Err::<(PipeId, &'a P), CommandError>(
                    CommandError::InvalidPipeArgument,
                ),
                Some(name) => if state@.dom().contains(name) {
                    res matches Ok((id, p)) && id@ == name && *p == state@[name]
                } else {
                    res == Err::<(PipeId, &'a P), CommandError>(CommandError::PipeNotFound)
                },
            },
    {
        let allowed = self.allowed_types();
        resolve_pipe(state, pipe_arg, &allowed)
    }

    /// Everything the command decides before it streams: the pipe argument
    /// is checked first (missing, then naming no pipe), then the condition,
    /// then whether a pipe of that name is registered.
    pub fn run<'a, P, F>(
        &self,
        state: &'a PipeState<P>,
        pipe_arg: Option<PipeArgValue>,
        condition: ConditionArg<F>,
    ) -> (res: Result<(PipeId, &'a P, Option<PipeReaderReadCondition<F>>), CommandError>)
        ensures
            pipe_arg is None ==> res == Err::<
                (PipeId, &'a P, Option<PipeReaderReadCondition<F>>),
                CommandError,
            >(CommandError::MissingPipeArgument),
            pipe_arg matches Some(v) ==> match spec_pipe_arg(v, all_types()) {
                None => res == Err::<
                    (PipeId, &'a P, Option<PipeReaderReadCondition<F>>),
                    CommandError,
                >(CommandError::InvalidPipeArgument),
                Some(name) => match condition {
                    ConditionArg::Int(n) if n < 0 => res == Err::<
                        (PipeId, &'a P, Option<PipeReaderReadCondition<F>>),
                        CommandError,
                    >(CommandError::NegativeCount),
                    ConditionArg::Other => res == Err::<
                        (PipeId, &'a P, Option<PipeReaderReadCondition<F>>),
                        CommandError,
                    >(CommandError::InvalidCondition),
                    _ => if state@.dom().contains(name) {
                        res matches Ok((id, p, c)) && id@ == name && *p == state@[name] && match
                            condition {
                            ConditionArg::Int(n) => c matches Some(
                                PipeReaderReadCondition::Count(k),
                            ) && k == n as usize,
                            ConditionArg::Closure(f) => c == Some(
                                PipeReaderReadCondition::Filter(f),
                            ),
                            _ => c is None,
                        }
                    } else {
                        res == Err::<
                            (PipeId, &'a P, Option<PipeReaderReadCondition<F>>),
                            CommandError,
                        >(CommandError::PipeNotFound)
                    },
                },
            },
    {
        let allowed = self.allowed_types();
        let id = match resolve_name(pipe_arg, &allowed) {
            Ok(id) => id,
            Err(e) => return Err(e),
        };
        let cond = match self.condition(condition) {
            Ok(c) => c,
            Err(e) => return Err(e),
        };
        match state.get_pipe(&id) {
            Some(p) => Ok((id, p, cond)),
            None => Err(CommandError::PipeNotFound),
        }
    }
}

} // verus!
