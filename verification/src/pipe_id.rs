use vstd::prelude::*;

verus! {

/// The name of a pipe.
#[derive(Debug, PartialEq, Eq, Hash)]
pub struct PipeId(pub String);

impl View for PipeId {
    type V = Seq<char>;

    open spec fn view(&self) -> Seq<char> {
        self.0@
    }
}

impl Clone for PipeId {
    fn clone(&self) -> (res: Self)
        ensures
            res@ == self@,
    {
        PipeId(self.0.clone())
    }
}

impl PipeId {
    /// Wraps a name.
    pub fn new(name: String) -> (res: PipeId)
        ensures
            res@ == name@,
    {
        PipeId(name)
    }

    /// The name as a string slice.
    pub fn as_str(&self) -> (res: &str)
        ensures
            res@ == self@,
    {
        self.0.as_str()
    }
}

} // verus!

verus! {

/// A handle to a whole pipe: it can be written into and read from.
#[derive(Debug, PartialEq, Eq)]
pub struct PipeValue(pub PipeId);

impl PipeValue {
    /// Wraps the name of a pipe.
    pub fn new(id: PipeId) -> (res: PipeValue)
        ensures
            res.0 == id,
    {
        PipeValue(id)
    }
}

impl Clone for PipeValue {
    fn clone(&self) -> (res: Self)
        ensures
            res.0@ == self.0@,
    {
        PipeValue(self.0.clone())
    }
}

/// A handle to the reading end of a pipe.
#[derive(Debug, PartialEq, Eq)]
pub struct PipeReaderValue(pub PipeId);

impl Clone for PipeReaderValue {
    fn clone(&self) -> (res: Self)
        ensures
            res.0@ == self.0@,
    {
        PipeReaderValue(self.0.clone())
    }
}

/// What removing an object from a collection found.
#[derive(Debug, Clone, Copy, PartialEq, Eq, Structural)]
pub enum ObjectRemovalResult {
    DoesntExist,
    Removed,
}

impl ObjectRemovalResult {
    /// `Removed` when something was removed, `DoesntExist` otherwise.
    pub fn from_removed<T>(removed: Option<T>) -> (res: ObjectRemovalResult)
        ensures
            res == (if removed is Some {
                ObjectRemovalResult::Removed
            } else {
                ObjectRemovalResult::DoesntExist
            }),
    {
        match removed {
            Some(_) => ObjectRemovalResult::Removed,
            None => ObjectRemovalResult::DoesntExist,
        }
    }
}

/// A pipe of that name exists already.
#[derive(Debug)]
pub struct PipeNameExistsError {
    pub name: String,
}

/// Values that designate a pipe.
pub trait GetsPipe {
    fn pipe_id(&self) -> &PipeId;
}

impl GetsPipe for PipeValue {
    fn pipe_id(&self) -> (res: &PipeId)
        ensures
            *res == self.0,
    {
        &self.0
    }
}

impl GetsPipe for PipeReaderValue {
    fn pipe_id(&self) -> (res: &PipeId)
        ensures
            *res == self.0,
    {
        &self.0
    }
}

/// Values that designate a pipe that can be written into.
pub trait GetsPipeSender: GetsPipe {}

/// Values that designate a pipe that can be read from.
pub trait GetsPipeOutput: GetsPipe {}

impl GetsPipeSender for PipeValue {}

impl GetsPipeOutput for PipeValue {}

} // verus!
