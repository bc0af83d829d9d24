use vstd::prelude::*;
use crate::cmds::{CommandError, resolve_pipe};
use crate::pipe_arg::{PipeArgValue, PipeArgAllowedTypes, spec_pipe_arg, all_types};
use crate::pipe_id::PipeId;
use crate::state::PipeState;

verus! {

/// The plain form of `pipe read`: streams every value of a pipe until it is
/// closed and empty, with no condition.
pub struct ReadFromPipeCmd;

impl ReadFromPipeCmd {
    pub fn name(&self) -> (res: &'static str)
        ensures
            res@ == "pipe read"@,
    {
        "pipe read"
    }

    pub fn description(&self) -> (res: &'static str)
        ensures
            res@ == "receives values streaming from the fucking pipe"@,
    {
        "receives values streaming from the fucking pipe"
    }

    /// The kinds of value that may name the pipe to read from.
    pub fn allowed_types(&self) -> (res: PipeArgAllowedTypes)
        ensures
            res == all_types(),
    {
        PipeArgAllowedTypes::all().only_readers()
    }

    /// The pipe to read from; see `resolve_pipe`.
    pub fn resolve<'a, P>(&self, state: &'a PipeState<P>, pipe_arg: Option<PipeArgValue>) -> (res:
        Result<(PipeId, &'a P), CommandError>)
        ensures
            pipe_arg is None ==> res == Err::<(PipeId, &'a P), CommandError>(
                CommandError::MissingPipeArgument,
            ),
            pipe_arg matches Some(v) ==> match spec_pipe_arg(v, all_types()) {
                None => res == Err::<(PipeId, &'a P), CommandError>(
                    CommandError::InvalidPipeArgument,
                ),
                Some(name) => if state@.dom().contains(name) {
                    res matches Ok((id, p)) && id@ == name && *p == state@[name]
                } else {
                    res == Err::<(PipeId, &'a P), CommandError>(CommandError::PipeNotFound)
                },
            },
    {
        let allowed = self.allowed_types();
        resolve_pipe(state, pipe_arg, &allowed)
    }
}

} // verus!
