//! Persistent named pipes: a registry of named, bounded first-in first-out
//! channels that outlive the commands that create, fill and drain them.

pub mod pipe_id;
pub mod pipe;
pub mod state;
pub mod names;
pub mod pipe_arg;
pub mod read;
pub mod cmds;
pub mod laws;

pub use pipe_id::{
    PipeId, PipeValue, PipeReaderValue, ObjectRemovalResult, PipeNameExistsError, GetsPipe,
    GetsPipeSender, GetsPipeOutput,
};
pub use pipe::{Channel, PeekableReceiver, Pipe, TryRecvError, TrySendError, DEFAULT_PIPE_SIZE};
pub use state::PipeState;
pub use names::NameGenerator;
pub use pipe_arg::{
    PipeArgAllowedTypes, PipeArgType, PipeArgValue, PipeArgError, pipe_arg_from_value, pipe_arg_type,
};
pub use read::{PipeReaderReadCondition, PipeRead, ReadMode, ReadStep, FilterStep};
pub use cmds::CommandError;
