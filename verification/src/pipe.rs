use vstd::prelude::*;
use std::collections::VecDeque;

verus! {

/// Why a value could not be put into a channel; the value comes back.
#[derive(Debug)]
pub enum TrySendError<T> {
    /// The buffer holds as many values as it may; a writer waits.
    Full(T),
    /// No reader is left, so the value can never be read.
    Disconnected(T),
}

/// Why no value could be taken from a channel.
#[derive(Debug, Clone, Copy, PartialEq, Eq, Structural)]
pub enum TryRecvError {
    /// Nothing is buffered yet, but a writer is still attached; a reader waits.
    Empty,
    /// Nothing is buffered and no writer is left: nothing will ever come.
    Disconnected,
}

/// A bounded first-in first-out channel with a count of attached writers and
/// readers.
///
/// A channel made with size `n > 0` buffers at most `n` values. A channel of
/// size `0` is a rendezvous: it holds at most the one value that a writer is
/// handing over, and the writer is done once a reader has taken it (which
/// `taken` tells).
pub struct Channel<T> {
    queue: VecDeque<T>,
    capacity: usize,
    senders: usize,
    receivers: usize,
    taken: u64,
}

impl<T> Channel<T> {
    /// The buffered values, oldest first.
    pub closed spec fn items(&self) -> Seq<T> {
        self.queue@
    }

    /// The size the channel was made with.
    pub closed spec fn cap(&self) -> nat {
        self.capacity as nat
    }

    /// The number of attached writers.
    pub closed spec fn sender_count(&self) -> nat {
        self.senders as nat
    }

    /// The number of attached readers.
    pub closed spec fn receiver_count(&self) -> nat {
        self.receivers as nat
    }

    /// How many values have been taken out so far (wrapping).
    pub closed spec fn taken_count(&self) -> u64 {
        self.taken
    }

    /// The most values the buffer may hold.
    pub open spec fn bound(&self) -> nat {
        if self.cap() == 0 {
            1
        } else {
            self.cap()
        }
    }

    /// Whether one more value fits.
    pub open spec fn has_room(&self) -> bool {
        self.items().len() < self.bound()
    }

    /// The buffer never holds more than the bound.
    #[verifier::type_invariant]
    pub open spec fn wf(&self) -> bool {
        self.items().len() <= self.bound()
    }

    /// A channel of the given size with nothing buffered, one writer and one
    /// reader attached.
    pub fn new(capacity: usize) -> (res: Channel<T>)
        ensures
            res.items() == Seq::<T>::empty(),
            res.cap() == capacity,
            res.sender_count() == 1,
            res.receiver_count() == 1,
            res.taken_count() == 0,
    {
        Channel { queue: VecDeque::new(), capacity, senders: 1, receivers: 1, taken: 0 }
    }

    /// Puts `value` at the back of the buffer when a reader is attached and
    /// there is room; otherwise hands it back and changes nothing.
    pub fn try_send(&mut self, value: T) -> (res: Result<(), TrySendError<T>>)
        ensures
            final(self).cap() == old(self).cap(),
            final(self).sender_count() == old(self).sender_count(),
            final(self).receiver_count() == old(self).receiver_count(),
            final(self).taken_count() == old(self).taken_count(),
            old(self).receiver_count() == 0 ==> res == Err::<(), TrySendError<T>>(
                TrySendError::Disconnected(value),
            ) && final(self).items() == old(self).items(),
            old(self).receiver_count() > 0 && !old(self).has_room() ==> res == Err::<
                (),
                TrySendError<T>,
            >(TrySendError::Full(value)) && final(self).items() == old(self).items(),
            old(self).receiver_count() > 0 && old(self).has_room() ==> res is Ok
                && final(self).items() == old(self).items().push(value),
            old(self).receiver_count() > 0 && (old(self).items().len() < old(self).cap()
                || (old(self).cap() == 0 && old(self).items().len() == 0)) ==> res is Ok
                && final(self).items() == old(self).items().push(value),
            old(self).receiver_count() > 0 && old(self).cap() > 0 && old(self).items().len()
                >= old(self).cap() ==> res == Err::<(), TrySendError<T>>(TrySendError::Full(value))
                && final(self).items() == old(self).items(),
            old(self).receiver_count() > 0 && old(self).cap() == 0 && old(self).items().len() > 0
                ==> res == Err::<(), TrySendError<T>>(TrySendError::Full(value))
                && final(self).items() == old(self).items(),
    {
        proof {
            use_type_invariant(&*self);
        }
        if self.receivers == 0 {
            return Err(TrySendError::Disconnected(value));
        }
        let len = self.queue.len();
        if len < self.capacity || (self.capacity == 0 && len == 0) {
            let mut queue: VecDeque<T> = VecDeque::new();
            std::mem::swap(&mut self.queue, &mut queue);
            queue.push_back(value);
            self.queue = queue;
            Ok(())
        } else {
            Err(TrySendError::Full(value))
        }
    }

    /// Takes the oldest buffered value. With nothing buffered it reports
    /// `Disconnected` when no writer is left and `Empty` otherwise.
    pub fn try_recv(&mut self) -> (res: Result<T, TryRecvError>)
        ensures
            final(self).cap() == old(self).cap(),
            final(self).sender_count() == old(self).sender_count(),
            final(self).receiver_count() == old(self).receiver_count(),
            old(self).items().len() > 0 ==> res == Ok::<T, TryRecvError>(old(self).items()[0])
                && final(self).items() == old(self).items().drop_first()
                && final(self).taken_count() == old(self).taken_count().wrapping_add(1),
            old(self).items().len() == 0 ==> final(self).items() == old(self).items()
                && final(self).taken_count() == old(self).taken_count() && res == Err::<
                T,
                TryRecvError,
            >(
                if old(self).sender_count() == 0 {
                    TryRecvError::Disconnected
                } else {
                    TryRecvError::Empty
                },
            ),
    {
        proof {
            use_type_invariant(&*self);
        }
        let mut queue: VecDeque<T> = VecDeque::new();
        std::mem::swap(&mut self.queue, &mut queue);
        let front = queue.pop_front();
        self.queue = queue;
        match front {
            Some(value) => {
                self.taken = self.taken.wrapping_add(1);
                Ok(value)
            },
            None => {
                if self.senders == 0 {
                    Err(TryRecvError::Disconnected)
                } else {
                    Err(TryRecvError::Empty)
                }
            },
        }
    }

    /// Attaches one more writer.
    pub fn add_sender(&mut self)
        requires
            old(self).sender_count() < usize::MAX,
        ensures
            final(self).sender_count() == old(self).sender_count() + 1,
            final(self).receiver_count() == old(self).receiver_count(),
            final(self).items() == old(self).items(),
            final(self).cap() == old(self).cap(),
            final(self).taken_count() == old(self).taken_count(),
        no_unwind
    {
        proof {
            use_type_invariant(&*self);
        }
        self.senders = self.senders + 1;
    }

    /// Detaches one writer.
    pub fn remove_sender(&mut self)
        requires
            old(self).sender_count() > 0,
        ensures
            final(self).sender_count() == old(self).sender_count() - 1,
            final(self).receiver_count() == old(self).receiver_count(),
            final(self).items() == old(self).items(),
            final(self).cap() == old(self).cap(),
            final(self).taken_count() == old(self).taken_count(),
        no_unwind
    {
        proof {
            use_type_invariant(&*self);
        }
        self.senders = self.senders - 1;
    }

    /// Attaches one more reader.
    pub fn add_receiver(&mut self)
        requires
            old(self).receiver_count() < usize::MAX,
        ensures
            final(self).receiver_count() == old(self).receiver_count() + 1,
            final(self).sender_count() == old(self).sender_count(),
            final(self).items() == old(self).items(),
            final(self).cap() == old(self).cap(),
            final(self).taken_count() == old(self).taken_count(),
        no_unwind
    {
        proof {
            use_type_invariant(&*self);
        }
        self.receivers = self.receivers + 1;
    }

    /// Detaches one reader.
    pub fn remove_receiver(&mut self)
        requires
            old(self).receiver_count() > 0,
        ensures
            final(self).receiver_count() == old(self).receiver_count() - 1,
            final(self).sender_count() == old(self).sender_count(),
            final(self).items() == old(self).items(),
            final(self).cap() == old(self).cap(),
            final(self).taken_count() == old(self).taken_count(),
        no_unwind
    {
        proof {
            use_type_invariant(&*self);
        }
        self.receivers = self.receivers - 1;
    }

    /// The number of buffered values.
    pub fn len(&self) -> (res: usize)
        ensures
            res == self.items().len(),
    {
        self.queue.len()
    }

    /// The size the channel was made with.
    pub fn capacity(&self) -> (res: usize)
        ensures
            res == self.cap(),
    {
        self.capacity
    }

    /// The number of attached writers.
    pub fn senders(&self) -> (res: usize)
        ensures
            res == self.sender_count(),
    {
        self.senders
    }

    /// The number of attached readers.
    pub fn receivers(&self) -> (res: usize)
        ensures
            res == self.receiver_count(),
    {
        self.receivers
    }

    /// How many values have been taken out so far (wrapping).
    pub fn taken(&self) -> (res: u64)
        ensures
            res == self.taken_count(),
    {
        self.taken
    }
}

} // verus!

verus! {

/// The reading end of a channel, with room to hold one value that has been
/// looked at but not yet taken.
pub struct PeekableReceiver<T> {
    current_value: Option<T>,
    inner: Channel<T>,
}

/// The value held back by a peek, as a sequence of length zero or one.
pub open spec fn peeked_seq<T>(peeked: Option<T>) -> Seq<T> {
    match peeked {
        Some(v) => seq![v],
        None => Seq::empty(),
    }
}

impl<T> PeekableReceiver<T> {
    /// The value held back by the last peek, if any.
    pub closed spec fn peeked(&self) -> Option<T> {
        self.current_value
    }

    /// The channel read from.
    pub closed spec fn channel(&self) -> Channel<T> {
        self.inner
    }

    /// Every value still to be read, oldest first: the peeked one, then the
    /// buffered ones.
    pub open spec fn pending(&self) -> Seq<T> {
        peeked_seq(self.peeked()) + self.channel().items()
    }

    /// Reads from `inner`, with nothing peeked yet.
    pub fn new(inner: Channel<T>) -> (res: PeekableReceiver<T>)
        ensures
            res.peeked() is None,
            res.channel() == inner,
    {
        PeekableReceiver { current_value: None, inner }
    }

    /// Takes the oldest pending value: the peeked one if there is one, else
    /// the oldest buffered one. With nothing pending it reports why, as
    /// `Channel::try_recv` does.
    pub fn recv(&mut self) -> (res: Result<T, TryRecvError>)
        ensures
            final(self).peeked() is None,
            final(self).channel().cap() == old(self).channel().cap(),
            final(self).channel().sender_count() == old(self).channel().sender_count(),
            final(self).channel().receiver_count() == old(self).channel().receiver_count(),
            old(self).pending().len() > 0 ==> res == Ok::<T, TryRecvError>(old(self).pending()[0])
                && final(self).pending() == old(self).pending().drop_first(),
            old(self).peeked() is Some ==> final(self).channel().taken_count()
                == old(self).channel().taken_count(),
            old(self).peeked() is None && old(self).channel().items().len() > 0
                ==> final(self).channel().taken_count()
                == old(self).channel().taken_count().wrapping_add(1),
            old(self).pending().len() == 0 ==> final(self).pending() == old(self).pending()
                && final(self).channel().taken_count() == old(self).channel().taken_count()
                && res == Err::<T, TryRecvError>(
                if old(self).channel().sender_count() == 0 {
                    TryRecvError::Disconnected
                } else {
                    TryRecvError::Empty
                },
            ),
    {
        if let Some(current) = self.current_value.take() {
            assert(old(self).pending().drop_first() =~= self.pending());
            return Ok(current);
        }
        let res = self.inner.try_recv();
        assert(old(self).pending() =~= old(self).channel().items());
        assert(self.pending() =~= self.channel().items());
        res
    }

    /// Looks at the oldest pending value without taking it: it stays the
    /// next value that `recv` gives. With nothing pending it reports why, as
    /// `recv` does.
    pub fn peek(&mut self) -> (res: Result<&T, TryRecvError>)
        ensures
            final(self).pending() == old(self).pending(),
            final(self).channel().cap() == old(self).channel().cap(),
            final(self).channel().sender_count() == old(self).channel().sender_count(),
            final(self).channel().receiver_count() == old(self).channel().receiver_count(),
            old(self).pending().len() > 0 ==> (res matches Ok(v) && *v == old(self).pending()[0])
                && final(self).peeked() == Some(old(self).pending()[0]),
            old(self).peeked() is Some ==> final(self).channel().taken_count()
                == old(self).channel().taken_count(),
            old(self).peeked() is None && old(self).channel().items().len() > 0
                ==> final(self).channel().taken_count()
                == old(self).channel().taken_count().wrapping_add(1),
            old(self).pending().len() == 0 ==> final(self).channel().taken_count()
                == old(self).channel().taken_count() && final(self).peeked() == old(self).peeked()
                && res == Err::<&T, TryRecvError>(
                if old(self).channel().sender_count() == 0 {
                    TryRecvError::Disconnected
                } else {
                    TryRecvError::Empty
                },
            ),
    {
        if self.current_value.is_none() {
            assert(old(self).pending() =~= old(self).channel().items());
            match self.inner.try_recv() {
                Ok(val) => {
                    self.current_value = Some(val);
                    assert(self.pending() =~= old(self).pending());
                },
                Err(e) => {
                    return Err(e);
                },
            }
        }
        match &self.current_value {
            Some(v) => Ok(v),
            None => Err(TryRecvError::Empty),
        }
    }
}

} // verus!

verus! {

/// A named pipe's shared body: a bounded channel read through a peekable
/// receiver. Writers and readers attach to it and detach from it.
pub struct Pipe<T> {
    rx: PeekableReceiver<T>,
    written: Ghost<Seq<T>>,
    read: Ghost<Seq<T>>,
}

impl<T> Pipe<T> {
    /// The receiving side.
    pub closed spec fn receiver(&self) -> PeekableReceiver<T> {
        self.rx
    }

    /// Every value still to be read, oldest first.
    pub open spec fn pending(&self) -> Seq<T> {
        self.receiver().pending()
    }

    /// The size the pipe was made with.
    pub open spec fn size(&self) -> nat {
        self.receiver().channel().cap()
    }

    /// The number of attached writers.
    pub open spec fn writer_count(&self) -> nat {
        self.receiver().channel().sender_count()
    }

    /// The number of attached readers.
    pub open spec fn reader_count(&self) -> nat {
        self.receiver().channel().receiver_count()
    }

    /// How many values have left the channel so far (wrapping).
    pub open spec fn taken_count(&self) -> u64 {
        self.receiver().channel().taken_count()
    }

    /// Whether a value written now would be buffered.
    pub open spec fn has_room(&self) -> bool {
        self.receiver().channel().has_room()
    }

    /// Every value ever written into the pipe, in order.
    pub closed spec fn written_log(&self) -> Seq<T> {
        self.written@
    }

    /// Every value ever taken from the pipe, in order.
    pub closed spec fn read_log(&self) -> Seq<T> {
        self.read@
    }

    /// Every value ever written has either been taken, in the order of
    /// writing, or is still pending.
    #[verifier::type_invariant]
    pub open spec fn wf(&self) -> bool {
        self.written_log() == self.read_log() + self.pending()
    }

    /// Takes the parts out of `self`, leaving an empty pipe behind.
    fn take_parts(&mut self) -> (res: (PeekableReceiver<T>, Ghost<Seq<T>>, Ghost<Seq<T>>))
        ensures
            res.0 == old(self).rx,
            res.1@ == old(self).written_log(),
            res.2@ == old(self).read_log(),
            res.1@ == res.2@ + res.0.pending(),
    {
        let mut taken: Pipe<T> = Pipe::new(0);
        std::mem::swap(self, &mut taken);
        proof {
            use_type_invariant(&taken);
        }
        let Pipe { rx, written, read } = taken;
        (rx, written, read)
    }

    /// An empty pipe of the given size. The pipe's own entry in the
    /// registry counts as one writer and one reader.
    pub fn new(size: usize) -> (res: Pipe<T>)
        ensures
            res.pending() == Seq::<T>::empty(),
            res.receiver().peeked() is None,
            res.size() == size,
            res.writer_count() == 1,
            res.reader_count() == 1,
            res.taken_count() == 0,
            res.written_log() == Seq::<T>::empty(),
            res.read_log() == Seq::<T>::empty(),
    {
        let res = Pipe {
            rx: PeekableReceiver::new(Channel::new(size)),
            written: Ghost(Seq::empty()),
            read: Ghost(Seq::empty()),
        };
        assert(res.pending() =~= Seq::<T>::empty());
        assert(res.read_log() + res.pending() =~= Seq::<T>::empty());
        res
    }

    /// Attaches a writer.
    pub fn get_writer(&mut self)
        requires
            old(self).writer_count() < usize::MAX,
        ensures
            final(self).writer_count() == old(self).writer_count() + 1,
            final(self).reader_count() == old(self).reader_count(),
            final(self).pending() == old(self).pending(),
            final(self).receiver().peeked() == old(self).receiver().peeked(),
            final(self).size() == old(self).size(),
            final(self).taken_count() == old(self).taken_count(),
            final(self).written_log() == old(self).written_log(),
            final(self).read_log() == old(self).read_log(),
    {
        proof {
            use_type_invariant(&*self);
        }
        self.rx.inner.add_sender();
    }

    /// Detaches a writer.
    pub fn release_writer(&mut self)
        requires
            old(self).writer_count() > 0,
        ensures
            final(self).writer_count() == old(self).writer_count() - 1,
            final(self).reader_count() == old(self).reader_count(),
            final(self).pending() == old(self).pending(),
            final(self).receiver().peeked() == old(self).receiver().peeked(),
            final(self).size() == old(self).size(),
            final(self).taken_count() == old(self).taken_count(),
            final(self).written_log() == old(self).written_log(),
            final(self).read_log() == old(self).read_log(),
    {
        proof {
            use_type_invariant(&*self);
        }
        self.rx.inner.remove_sender();
    }

    /// Attaches a reader.
    pub fn get_receiver(&mut self)
        requires
            old(self).reader_count() < usize::MAX,
        ensures
            final(self).reader_count() == old(self).reader_count() + 1,
            final(self).writer_count() == old(self).writer_count(),
            final(self).pending() == old(self).pending(),
            final(self).receiver().peeked() == old(self).receiver().peeked(),
            final(self).size() == old(self).size(),
            final(self).taken_count() == old(self).taken_count(),
            final(self).written_log() == old(self).written_log(),
            final(self).read_log() == old(self).read_log(),
    {
        proof {
            use_type_invariant(&*self);
        }
        self.rx.inner.add_receiver();
    }

    /// Detaches a reader.
    pub fn release_receiver(&mut self)
        requires
            old(self).reader_count() > 0,
        ensures
            final(self).reader_count() == old(self).reader_count() - 1,
            final(self).writer_count() == old(self).writer_count(),
            final(self).pending() == old(self).pending(),
            final(self).receiver().peeked() == old(self).receiver().peeked(),
            final(self).size() == old(self).size(),
            final(self).taken_count() == old(self).taken_count(),
            final(self).written_log() == old(self).written_log(),
            final(self).read_log() == old(self).read_log(),
    {
        proof {
            use_type_invariant(&*self);
        }
        self.rx.inner.remove_receiver();
    }

    /// Writes `value` at the back of the pipe when a reader is attached and
    /// there is room; otherwise hands it back and changes nothing.
    pub fn try_send(&mut self, value: T) -> (res: Result<(), TrySendError<T>>)
        ensures
            final(self).size() == old(self).size(),
            final(self).writer_count() == old(self).writer_count(),
            final(self).reader_count() == old(self).reader_count(),
            final(self).taken_count() == old(self).taken_count(),
            final(self).receiver().peeked() == old(self).receiver().peeked(),
            old(self).reader_count() == 0 ==> res == Err::<(), TrySendError<T>>(
                TrySendError::Disconnected(value),
            ) && final(self).pending() == old(self).pending(),
            old(self).reader_count() > 0 && !old(self).has_room() ==> res == Err::<
                (),
                TrySendError<T>,
            >(TrySendError::Full(value)) && final(self).pending() == old(self).pending(),
            old(self).reader_count() > 0 && old(self).has_room() ==> res is Ok
                && final(self).pending() == old(self).pending().push(value),
            old(self).reader_count() > 0 && (old(self).receiver().channel().items().len()
                < old(self).size() || (old(self).size() == 0
                && old(self).receiver().channel().items().len() == 0)) ==> res is Ok
                && final(self).pending() == old(self).pending().push(value),
            old(self).reader_count() > 0 && old(self).size() > 0
                && old(self).receiver().channel().items().len() >= old(self).size() ==> res == Err::<
                (),
                TrySendError<T>,
            >(TrySendError::Full(value)),
            final(self).read_log() == old(self).read_log(),
            res is Ok ==> final(self).written_log() == old(self).written_log().push(value),
            res is Err ==> final(self).written_log() == old(self).written_log(),
    {
        let (mut rx, written, read) = self.take_parts();
        let ghost before = rx.inner.items();
        let ghost v = value;
        let res = rx.inner.try_send(value);
        let ghost p = peeked_seq(rx.current_value);
        proof {
            assert((p + before).push(v) =~= p + before.push(v));
        }
        let written = if res.is_ok() {
            assert(read@ + (p + before).push(v) =~= (read@ + (p + before)).push(v));
            Ghost(written@.push(v))
        } else {
            written
        };
        *self = Pipe { rx, written, read };
        res
    }

    /// Takes the oldest pending value; see `PeekableReceiver::recv`.
    pub fn recv(&mut self) -> (res: Result<T, TryRecvError>)
        ensures
            final(self).receiver().peeked() is None,
            final(self).size() == old(self).size(),
            final(self).writer_count() == old(self).writer_count(),
            final(self).reader_count() == old(self).reader_count(),
            old(self).pending().len() > 0 ==> res == Ok::<T, TryRecvError>(old(self).pending()[0])
                && final(self).pending() == old(self).pending().drop_first(),
            old(self).receiver().peeked() is Some ==> final(self).taken_count()
                == old(self).taken_count(),
            old(self).receiver().peeked() is None && old(self).pending().len() > 0
                ==> final(self).taken_count() == old(self).taken_count().wrapping_add(1),
            old(self).pending().len() == 0 ==> final(self).pending() == old(self).pending()
                && final(self).taken_count() == old(self).taken_count() && res == Err::<
                T,
                TryRecvError,
            >(
                if old(self).writer_count() == 0 {
                    TryRecvError::Disconnected
                } else {
                    TryRecvError::Empty
                },
            ),
            final(self).written_log() == old(self).written_log(),
            res matches Ok(v) ==> final(self).read_log() == old(self).read_log().push(v),
            res is Err ==> final(self).read_log() == old(self).read_log(),
    {
        let (mut rx, written, read) = self.take_parts();
        let res = rx.recv();
        let read = match &res {
            Ok(v) => {
                assert(read@.push(*v) + rx.pending() =~= read@ + old(self).pending());
                Ghost(read@.push(*v))
            },
            Err(_) => read,
        };
        *self = Pipe { rx, written, read };
        res
    }

    /// Looks at the oldest pending value without taking it; see
    /// `PeekableReceiver::peek`.
    pub fn peek(&mut self) -> (res: Result<&T, TryRecvError>)
        ensures
            final(self).pending() == old(self).pending(),
            final(self).size() == old(self).size(),
            final(self).writer_count() == old(self).writer_count(),
            final(self).reader_count() == old(self).reader_count(),
            old(self).pending().len() > 0 ==> (res matches Ok(v) && *v == old(self).pending()[0])
                && final(self).receiver().peeked() == Some(old(self).pending()[0]),
            old(self).receiver().peeked() is Some ==> final(self).taken_count()
                == old(self).taken_count(),
            old(self).receiver().peeked() is None && old(self).pending().len() > 0
                ==> final(self).taken_count() == old(self).taken_count().wrapping_add(1),
            old(self).pending().len() == 0 ==> final(self).taken_count() == old(self).taken_count()
                && final(self).receiver().peeked() == old(self).receiver().peeked() && res == Err::<
                &T,
                TryRecvError,
            >(
                if old(self).writer_count() == 0 {
                    TryRecvError::Disconnected
                } else {
                    TryRecvError::Empty
                },
            ),
            final(self).written_log() == old(self).written_log(),
            final(self).read_log() == old(self).read_log(),
    {
        let (mut rx, written, read) = self.take_parts();
        let outcome: Result<(), TryRecvError> = match rx.peek() {
            Ok(_) => Ok(()),
            Err(e) => Err(e),
        };
        *self = Pipe { rx, written, read };
        match outcome {
            Err(e) => Err(e),
            Ok(()) => match &self.rx.current_value {
                Some(v) => Ok(v),
                None => Err(TryRecvError::Empty),
            },
        }
    }

    /// Whether a value is pending.
    pub fn has_pending(&self) -> (res: bool)
        ensures
            res == (self.pending().len() > 0),
    {
        self.rx.current_value.is_some() || self.rx.inner.len() > 0
    }

    /// The size the pipe was made with.
    pub fn capacity(&self) -> (res: usize)
        ensures
            res == self.size(),
    {
        self.rx.inner.capacity()
    }

    /// The number of attached writers.
    pub fn writers(&self) -> (res: usize)
        ensures
            res == self.writer_count(),
    {
        self.rx.inner.senders()
    }

    /// The number of attached readers.
    pub fn readers(&self) -> (res: usize)
        ensures
            res == self.reader_count(),
    {
        self.rx.inner.receivers()
    }

    /// How many values have left the channel so far (wrapping).
    pub fn taken(&self) -> (res: u64)
        ensures
            res == self.taken_count(),
    {
        self.rx.inner.taken()
    }
}

} // verus!

verus! {

/// The size of a pipe made without an explicit size.
pub const DEFAULT_PIPE_SIZE: usize = 32;

} // verus!
