use vstd::prelude::*;
use crate::cmds::{CommandError, resolve_name};
use crate::pipe_arg::{PipeArgValue, PipeArgAllowedTypes, spec_pipe_arg, all_types};
use crate::pipe_id::ObjectRemovalResult;
use crate::state::PipeState;

verus! {

/// `pipe close`: closes a pipe by dropping it from the registry.
pub struct ClosePipeCmd;

/// The switch that makes closing a missing pipe no error.
pub const NO_ERROR_ON_NOT_FOUND_FLAG: &'static str = "no-error-on-not-found";

impl ClosePipeCmd {
    pub fn name(&self) -> (res: &'static str)
        ensures
            res@ == "pipe close"@,
    {
        "pipe close"
    }

    pub fn description(&self) -> (res: &'static str)
        ensures
            res@ == "it closes a pipe, such that nobody else can open it. "@,
    {
        "it closes a pipe, such that nobody else can open it. "
    }

    /// The kinds of value that may name the pipe to close.
    pub fn allowed_types(&self) -> (res: PipeArgAllowedTypes)
        ensures
            res == all_types(),
    {
        PipeArgAllowedTypes::all()
    }

    /// Closes the pipe that `pipe_arg` names. Unless the switch
    /// `no_error_on_not_found` is set, a name with no pipe is an error (and
    /// nothing changes).
    pub fn run<P>(
        &self,
        state: &mut PipeState<P>,
        pipe_arg: Option<PipeArgValue>,
        no_error_on_not_found: Option<bool>,
    ) -> (res: Result<ObjectRemovalResult, CommandError>)
        ensures
            pipe_arg is None ==> res == Err::<ObjectRemovalResult, CommandError>(
                CommandError::MissingPipeArgument,
            ) && final(state)@ == old(state)@,
            pipe_arg matches Some(v) ==> match spec_pipe_arg(v, all_types()) {
                None => res == Err::<ObjectRemovalResult, CommandError>(
                    CommandError::InvalidPipeArgument,
                ) && final(state)@ == old(state)@,
                Some(name) => if !old(state)@.dom().contains(name) && no_error_on_not_found
                    != Some(true) {
                    res == Err::<ObjectRemovalResult, CommandError>(CommandError::PipeDoesNotExist)
                        && final(state)@ == old(state)@
                } else {
                    final(state)@ == old(state)@.remove(name) && res == Ok::<
                        ObjectRemovalResult,
                        CommandError,
                    >(
                        if old(state)@.dom().contains(name) {
                            ObjectRemovalResult::Removed
                        } else {
                            ObjectRemovalResult::DoesntExist
                        },
                    )
                },
            },
    {
        let id = match resolve_name(pipe_arg, &PipeArgAllowedTypes::all()) {
            Ok(id) => id,
            Err(e) => return Err(e),
        };
        let errors_on_not_found = !no_error_on_not_found.unwrap_or(false);
        if !state.pipe_exists(id.as_str()) && errors_on_not_found {
            return Err(CommandError::PipeDoesNotExist);
        }
        Ok(state.drop_pipe(&id))
    }
}

} // verus!
