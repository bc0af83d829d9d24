use vstd::prelude::*;
use crate::pipe::{Pipe, TryRecvError};

verus! {

/// How much a read takes from a pipe, beyond "until it is closed and empty".
pub enum PipeReaderReadCondition<F> {
    /// At most this many values.
    Count(usize),
    /// Values as long as the filter accepts the next one.
    Filter(F),
}

/// The way a read decides when to stop.
#[derive(Debug, Clone, Copy, PartialEq, Eq, Structural)]
pub enum ReadMode {
    /// Until no value is pending and no writer is left.
    All,
    /// At most a number of values.
    Count,
    /// While a filter accepts the next value.
    Filter,
}

/// What a read does next.
#[derive(Debug)]
pub enum ReadStep<T> {
    /// This value was taken from the pipe and is the read's next output.
    Item(T),
    /// Nothing is pending yet but a writer is attached: wait for a change of
    /// the pipe, then step again.
    Wait,
    /// A value is pending and has been peeked: run the filter on it
    /// (`Pipe::peek` shows it) and hand the verdict to `judge`.
    Judge,
    /// The read is over.
    Done,
}

/// What a read does with a filter's verdict.
#[derive(Debug)]
pub enum FilterStep<T, E> {
    /// The filter accepted this value; it was taken and is the next output.
    Item(T),
    /// The filter rejected the value; it stays in the pipe and the read is
    /// over.
    Stop,
    /// The filter failed; the failure is the last output of the read.
    Failed(E),
}

/// A read in progress: which values of a pipe to take, and when to stop.
pub struct PipeRead {
    mode: ReadMode,
    remaining: usize,
    finished: bool,
    limit: Ghost<nat>,
    delivered: Ghost<nat>,
}

impl PipeRead {
    pub closed spec fn mode(&self) -> ReadMode {
        self.mode
    }

    /// For a count read: how many more values it may take.
    pub closed spec fn remaining(&self) -> nat {
        self.remaining as nat
    }

    /// Whether the read is over.
    pub closed spec fn finished(&self) -> bool {
        self.finished
    }

    /// For a count read: how many values it may take in all.
    pub closed spec fn limit(&self) -> nat {
        self.limit@
    }

    /// How many values the read has output so far.
    pub closed spec fn delivered(&self) -> nat {
        self.delivered@
    }

    /// A count read outputs no more than its limit.
    #[verifier::type_invariant]
    pub open spec fn wf(&self) -> bool {
        self.mode() == ReadMode::Count ==> self.delivered() + self.remaining() == self.limit()
    }

    /// Starts a read under `condition`; with none it reads until the pipe is
    /// closed and empty.
    pub fn new<F>(condition: &Option<PipeReaderReadCondition<F>>) -> (res: PipeRead)
        ensures
            !res.finished(),
            res.delivered() == 0,
            condition is None ==> res.mode() == ReadMode::All,
            condition matches Some(PipeReaderReadCondition::Count(n)) ==> res.mode()
                == ReadMode::Count && res.limit() == n && res.remaining() == n,
            condition matches Some(PipeReaderReadCondition::Filter(_)) ==> res.mode()
                == ReadMode::Filter,
    {
        match condition {
            None => PipeRead {
                mode: ReadMode::All,
                remaining: 0,
                finished: false,
                limit: Ghost(0),
                delivered: Ghost(0),
            },
            Some(PipeReaderReadCondition::Count(n)) => PipeRead {
                mode: ReadMode::Count,
                remaining: *n,
                finished: false,
                limit: Ghost(*n as nat),
                delivered: Ghost(0),
            },
            Some(PipeReaderReadCondition::Filter(_)) => PipeRead {
                mode: ReadMode::Filter,
                remaining: 0,
                finished: false,
                limit: Ghost(0),
                delivered: Ghost(0),
            },
        }
    }

    /// Advances the read on `pipe`.
    ///
    /// A finished read stays finished. A count read with nothing left to take
    /// finishes. Otherwise, with a value pending, an unfiltered read takes it
    /// and a filtered one peeks at it and asks for a verdict; with nothing
    /// pending the read finishes when no writer is left and waits otherwise.
    pub fn step<T>(&mut self, pipe: &mut Pipe<T>) -> (res: ReadStep<T>)
        ensures
            final(self).mode() == old(self).mode(),
            final(self).limit() == old(self).limit(),
            final(pipe).size() == old(pipe).size(),
            final(pipe).writer_count() == old(pipe).writer_count(),
            final(pipe).reader_count() == old(pipe).reader_count(),
            final(pipe).written_log() == old(pipe).written_log(),
            res matches ReadStep::Item(v) ==> final(pipe).read_log() == old(pipe).read_log().push(v),
            !(res is Item) ==> final(pipe).read_log() == old(pipe).read_log(),
            old(self).finished() ==> res is Done && *final(self) == *old(self) && final(pipe).pending()
                == old(pipe).pending(),
            !old(self).finished() && old(self).mode() == ReadMode::Count && old(self).remaining()
                == 0 ==> res is Done && final(self).finished() && final(self).delivered() == old(
                self).delivered() && final(pipe).pending() == old(pipe).pending(),
            !old(self).finished() && (old(self).mode() != ReadMode::Count || old(self).remaining()
                > 0) ==> {
                &&& old(pipe).pending().len() > 0 && old(self).mode() != ReadMode::Filter ==> res
                    == ReadStep::Item(old(pipe).pending()[0]) && final(pipe).pending() == old(
                    pipe).pending().drop_first() && !final(self).finished() && final(
                    self).delivered() == old(self).delivered() + 1
                &&& old(pipe).pending().len() > 0 && old(self).mode() == ReadMode::Filter ==> res
                    is Judge && final(pipe).pending() == old(pipe).pending() && final(
                    pipe).receiver().peeked() == Some(old(pipe).pending()[0]) && *final(self)
                    == *old(self)
                &&& old(pipe).pending().len() == 0 && old(pipe).writer_count() == 0 ==> res is Done
                    && final(self).finished() && final(self).delivered() == old(self).delivered()
                    && final(pipe).pending() == old(pipe).pending()
                &&& old(pipe).pending().len() == 0 && old(pipe).writer_count() > 0 ==> res is Wait
                    && *final(self) == *old(self) && final(pipe).pending() == old(pipe).pending()
            },
    {
        proof {
            use_type_invariant(&*self);
        }
        if self.finished {
            return ReadStep::Done;
        }
        match self.mode {
            ReadMode::Filter => match pipe.peek() {
                Ok(_) => ReadStep::Judge,
                Err(TryRecvError::Empty) => ReadStep::Wait,
                Err(TryRecvError::Disconnected) => {
                    self.finished = true;
                    ReadStep::Done
                },
            },
            _ => {
                if self.mode == ReadMode::Count && self.remaining == 0 {
                    self.finished = true;
                    return ReadStep::Done;
                }
                match pipe.recv() {
                    Ok(v) => {
                        if self.mode == ReadMode::Count {
                            *self = PipeRead {
                                mode: self.mode,
                                remaining: self.remaining - 1,
                                finished: self.finished,
                                limit: self.limit,
                                delivered: Ghost(self.delivered@ + 1),
                            };
                        } else {
                            self.delivered = Ghost(self.delivered@ + 1);
                        }
                        ReadStep::Item(v)
                    },
                    Err(TryRecvError::Empty) => ReadStep::Wait,
                    Err(TryRecvError::Disconnected) => {
                        self.finished = true;
                        ReadStep::Done
                    },
                }
            },
        }
    }

    /// Acts on the filter's verdict on the peeked value: takes and outputs
    /// it when accepted; ends the read when it is rejected (the value stays in
    /// the pipe) or when the filter failed (the failure is output).
    pub fn judge<T, E>(&mut self, pipe: &mut Pipe<T>, verdict: Result<bool, E>) -> (res:
        FilterStep<T, E>)
        requires
            old(self).mode() == ReadMode::Filter,
            !old(self).finished(),
            old(pipe).pending().len() > 0,
        ensures
            final(self).mode() == old(self).mode(),
            final(pipe).size() == old(pipe).size(),
            final(pipe).writer_count() == old(pipe).writer_count(),
            final(pipe).reader_count() == old(pipe).reader_count(),
            final(pipe).written_log() == old(pipe).written_log(),
            res matches FilterStep::Item(v) ==> final(pipe).read_log() == old(pipe).read_log().push(
                v,
            ),
            !(res is Item) ==> final(pipe).read_log() == old(pipe).read_log(),
            verdict == Ok::<bool, E>(true) ==> res == FilterStep::<T, E>::Item(
                old(pipe).pending()[0],
            ) && final(pipe).pending() == old(pipe).pending().drop_first() && !final(
                self).finished() && final(self).delivered() == old(self).delivered() + 1,
            verdict == Ok::<bool, E>(false) ==> res is Stop && final(self).finished()
                && final(pipe).pending() == old(pipe).pending() && final(self).delivered() == old(
                self).delivered(),
            verdict matches Err(e) ==> res == FilterStep::<T, E>::Failed(e) && final(
                self).finished() && final(pipe).pending() == old(pipe).pending() && final(
                self).delivered() == old(self).delivered() + 1,
    {
        proof {
            use_type_invariant(&*self);
        }
        match verdict {
            Ok(true) => match pipe.recv() {
                Ok(v) => {
                    self.delivered = Ghost(self.delivered@ + 1);
                    FilterStep::Item(v)
                },
                Err(_) => {
                    self.finished = true;
                    FilterStep::Stop
                },
            },
            Ok(false) => {
                self.finished = true;
                FilterStep::Stop
            },
            Err(e) => {
                self.finished = true;
                self.delivered = Ghost(self.delivered@ + 1);
                FilterStep::Failed(e)
            },
        }
    }

    /// The way the read decides when to stop.
    pub fn read_mode(&self) -> (res: ReadMode)
        ensures
            res == self.mode(),
    {
        self.mode
    }

    /// Whether the read is over.
    pub fn is_finished(&self) -> (res: bool)
        ensures
            res == self.finished(),
    {
        self.finished
    }
}

} // verus!
