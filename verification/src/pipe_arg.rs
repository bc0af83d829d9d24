use vstd::prelude::*;
use crate::pipe_id::{PipeId, PipeValue};

verus! {

/// The kinds of value that may name a pipe in a command's arguments.
#[derive(Debug, Clone, Copy, PartialEq, Eq, Structural)]
pub enum PipeArgType {
    /// A pipe handle, as `pipe new` returns.
    PipeValue,
    /// A plain string: the pipe's name.
    String,
}

/// What an argument value decodes to: as a pipe handle, and as a string.
/// Either, both or neither may succeed.
pub struct PipeArgValue {
    pub as_pipe_value: Option<PipeValue>,
    pub as_string: Option<String>,
}

/// An argument that names no pipe in any allowed way.
#[derive(Debug, Clone, Copy, PartialEq, Eq, Structural)]
pub enum PipeArgError {
    NotAPipe,
}

impl PipeArgError {
    /// The message shown for the error.
    pub fn message(&self) -> (res: &'static str)
        ensures
            res@ == "argument is not a valid pipe input"@,
    {
        "argument is not a valid pipe input"
    }

    /// The label put on the offending argument.
    pub fn label(&self) -> (res: &'static str)
        ensures
            res@ == "here"@,
    {
        "here"
    }
}

/// Which kinds of value a command accepts as the name of a pipe.
#[derive(Debug, Clone, Copy, PartialEq, Eq, Structural)]
pub struct PipeArgAllowedTypes {
    pub full: bool,
    pub string: bool,
}

/// The pipe that an argument names, if it names one in an allowed way. A
/// pipe handle wins over a string.
pub open spec fn spec_pipe_arg(value: PipeArgValue, allowed: PipeArgAllowedTypes) -> Option<
    Seq<char>,
> {
    if allowed.full && value.as_pipe_value is Some {
        Some(value.as_pipe_value.unwrap().0@)
    } else if allowed.string && value.as_string is Some {
        Some(value.as_string.unwrap()@)
    } else {
        None
    }
}

/// The accepted kinds, in the order a signature lists them.
pub open spec fn spec_pipe_arg_type(allowed: PipeArgAllowedTypes) -> Seq<PipeArgType> {
    (if allowed.full {
        seq![PipeArgType::PipeValue]
    } else {
        Seq::empty()
    }) + (if allowed.string {
        seq![PipeArgType::String]
    } else {
        Seq::empty()
    })
}

/// The pipe that `value` names: its pipe handle when handles are allowed
/// and it is one, else its string when strings are allowed and it is one.
pub fn pipe_arg_from_value(value: PipeArgValue, allowed_types: &PipeArgAllowedTypes) -> (res:
    Result<PipeId, PipeArgError>)
    ensures
        spec_pipe_arg(value, *allowed_types) matches Some(name) ==> (res matches Ok(id) && id@
            == name),
        spec_pipe_arg(value, *allowed_types) is None ==> res == Err::<PipeId, PipeArgError>(
            PipeArgError::NotAPipe,
        ),
        allowed_types.full && value.as_pipe_value is Some ==> (res matches Ok(id) && id@
            == value.as_pipe_value.unwrap().0@),
        !(allowed_types.full && value.as_pipe_value is Some) && allowed_types.string
            && value.as_string is Some ==> (res matches Ok(id) && id@ == value.as_string.unwrap()@),
        !(allowed_types.full && value.as_pipe_value is Some) && !(allowed_types.string
            && value.as_string is Some) ==> res == Err::<PipeId, PipeArgError>(
            PipeArgError::NotAPipe,
        ),
{
    if allowed_types.full {
        if let Some(val) = value.as_pipe_value {
            return Ok(val.0);
        }
    }
    if allowed_types.string {
        if let Some(val) = value.as_string {
            return Ok(PipeId(val));
        }
    }
    Err(PipeArgError::NotAPipe)
}

/// The kinds of value accepted, for a command's signature.
pub fn pipe_arg_type(allowed_types: &PipeArgAllowedTypes) -> (res: Vec<PipeArgType>)
    ensures
        res@ == spec_pipe_arg_type(*allowed_types),
{
    let mut res = Vec::new();
    if allowed_types.full {
        res.push(PipeArgType::PipeValue);
    }
    if allowed_types.string {
        res.push(PipeArgType::String);
    }
    assert(res@ =~= spec_pipe_arg_type(*allowed_types));
    res
}

/// Pipe handles and strings alike.
pub open spec fn all_types() -> PipeArgAllowedTypes {
    PipeArgAllowedTypes { full: true, string: true }
}

impl PipeArgAllowedTypes {
    /// Pipe handles and strings alike.
    pub fn all() -> (res: Self)
        ensures
            res == all_types(),
    {
        PipeArgAllowedTypes { full: true, string: true }
    }

    /// The same set: there is no separate reader handle to exclude.
    pub fn only_readers(self) -> (res: Self)
        ensures
            res == self,
    {
        self
    }

    /// The same set: there is no separate writer handle to exclude.
    pub fn only_writers(self) -> (res: Self)
        ensures
            res == self,
    {
        self
    }

    /// No plain strings: only pipe handles.
    pub fn only_typed(self) -> (res: Self)
        ensures
            res.full == self.full,
            !res.string,
    {
        let mut s = self;
        s.string = false;
        s
    }

    /// The pipe that `value` names; see `pipe_arg_from_value`.
    pub fn parse_value(&self, value: PipeArgValue) -> (res: Result<PipeId, PipeArgError>)
        ensures
            spec_pipe_arg(value, *self) matches Some(name) ==> (res matches Ok(id) && id@ == name),
            spec_pipe_arg(value, *self) is None ==> res == Err::<PipeId, PipeArgError>(
                PipeArgError::NotAPipe,
            ),
            self.full && value.as_pipe_value is Some ==> (res matches Ok(id) && id@
                == value.as_pipe_value.unwrap().0@),
            !(self.full && value.as_pipe_value is Some) && self.string && value.as_string is Some
                ==> (res matches Ok(id) && id@ == value.as_string.unwrap()@),
            !(self.full && value.as_pipe_value is Some) && !(self.string
                && value.as_string is Some) ==> res == Err::<PipeId, PipeArgError>(
                PipeArgError::NotAPipe,
            ),
    {
        pipe_arg_from_value(value, self)
    }

    /// The kinds of value accepted; see `pipe_arg_type`.
    pub fn arg_type(&self) -> (res: Vec<PipeArgType>)
        ensures
            res@ == spec_pipe_arg_type(*self),
    {
        pipe_arg_type(self)
    }
}

} // verus!
