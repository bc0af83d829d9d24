//! Properties of the library that span several operations.

use vstd::prelude::*;
use crate::pipe::{Channel, Pipe, TrySendError, peeked_seq};
use crate::cmds::CommandError;
use crate::cmds::get_pipe::{spec_get_target, GetPipeCmd, GetPipeSenderCmd, GetPipeReceiverCmd};
use crate::cmds::new::{spec_pipe_size, NewPipeCmd};
use crate::names::is_petname;
use crate::pipe_id::{PipeId, PipeValue, PipeReaderValue};
use crate::pipe_arg::{
    PipeArgValue,
    PipeArgAllowedTypes,
    PipeArgError,
    spec_pipe_arg,
    pipe_arg_from_value,
};
use crate::read::{PipeRead, ReadMode};
use crate::state::PipeState;

verus! {

/// What has been read from a pipe is exactly the first values written into
/// it, in the order of writing; what is still pending is the rest, in order.
pub proof fn law_reads_follow_writes<T>(p: Pipe<T>)
    requires
        p.wf(),
    ensures
        p.read_log().len() <= p.written_log().len(),
        forall|i: int| 0 <= i < p.read_log().len() ==> p.read_log()[i] == p.written_log()[i],
        p.pending() == p.written_log().subrange(
            p.read_log().len() as int,
            p.written_log().len() as int,
        ),
{
    assert(p.written_log().subrange(p.read_log().len() as int, p.written_log().len() as int)
        =~= p.pending());
}

/// A pipe buffers at most as many values as its size (a pipe of size 0 at
/// most the one value being handed over), besides the one value a peek may
/// hold back.
pub proof fn law_pipe_holds_at_most_its_size<T>(p: Pipe<T>)
    requires
        p.wf(),
        p.receiver().channel().wf(),
    ensures
        p.receiver().channel().items().len() <= if p.size() == 0 {
            1
        } else {
            p.size()
        },
        p.pending().len() <= 1 + if p.size() == 0 {
            1
        } else {
            p.size()
        },
{
    assert(peeked_seq(p.receiver().peeked()).len() <= 1);
}

/// A pipe registered under a name is found under that name, and no other
/// name is affected.
pub proof fn law_registered_pipe_is_found<P>(s: PipeState<P>, name: Seq<char>, pipe: P)
    ensures
        s@.insert(name, pipe).dom().contains(name),
        s@.insert(name, pipe)[name] == pipe,
        forall|k: Seq<char>|
            k != name ==> (#[trigger] s@.insert(name, pipe).dom().contains(k) == s@.dom().contains(
                k,
            )) && (s@.dom().contains(k) ==> s@.insert(name, pipe)[k] == s@[k]),
{
}

/// A pipe lives until it is closed: closing removes exactly that name, and
/// closing it again finds nothing and changes nothing.
pub proof fn law_closed_pipe_is_gone<P>(s: PipeState<P>, name: Seq<char>)
    ensures
        !s@.remove(name).dom().contains(name),
        s@.remove(name).remove(name) == s@.remove(name),
        forall|k: Seq<char>|
            k != name ==> (#[trigger] s@.remove(name).dom().contains(k) == s@.dom().contains(k)) && (
            s@.dom().contains(k) ==> s@.remove(name)[k] == s@[k]),
{
    assert(s@.remove(name).remove(name) =~= s@.remove(name));
}

/// A registered pipe outlives everything but its own closing: registering
/// or closing other names leaves it registered with the same body.
pub proof fn law_pipes_persist_until_closed<P>(
    s: PipeState<P>,
    name: Seq<char>,
    other: Seq<char>,
    pipe: P,
)
    requires
        s@.dom().contains(name),
        other != name,
    ensures
        s@.insert(other, pipe).dom().contains(name),
        s@.insert(other, pipe)[name] == s@[name],
        s@.remove(other).dom().contains(name),
        s@.remove(other)[name] == s@[name],
{
}

/// Registering a pipe and then closing it leaves the other pipes as they were.
pub proof fn law_create_then_close<P>(s: PipeState<P>, name: Seq<char>, pipe: P)
    requires
        !s@.dom().contains(name),
    ensures
        s@.insert(name, pipe).remove(name) == s@,
{
    assert(s@.insert(name, pipe).remove(name) =~= s@);
}

/// A count read never outputs more values than its count.
pub proof fn law_count_read_is_bounded(r: PipeRead)
    requires
        r.wf(),
        r.mode() == ReadMode::Count,
    ensures
        r.delivered() <= r.limit(),
{
}

/// Where pipe handles are accepted, an argument that is a pipe handle names
/// that pipe, whatever string it also reads as.
pub proof fn law_handle_wins(value: PipeArgValue, allowed: PipeArgAllowedTypes)
    requires
        allowed.full,
        value.as_pipe_value is Some,
    ensures
        spec_pipe_arg(value, allowed) == Some(value.as_pipe_value.unwrap().0@),
{
}

/// Where strings are not accepted, only a pipe handle names a pipe.
pub proof fn law_typed_needs_handle(value: PipeArgValue, allowed: PipeArgAllowedTypes)
    requires
        !allowed.string,
    ensures
        spec_pipe_arg(value, allowed) is Some <==> allowed.full && value.as_pipe_value is Some,
{
}

} // verus!

verus! {

/// One change to the registry: what `PipeState::new_pipe` does (register a
/// pipe under a name) or what `PipeState::drop_pipe` does (close a name).
/// Every other operation on a registry leaves its view as it is.
pub enum RegistryChange<P> {
    Register(Seq<char>, P),
    Close(Seq<char>),
}

/// The registry's view after one change.
pub open spec fn apply_change<P>(m: Map<Seq<char>, P>, c: RegistryChange<P>) -> Map<Seq<char>, P> {
    match c {
        RegistryChange::Register(name, pipe) => m.insert(name, pipe),
        RegistryChange::Close(name) => m.remove(name),
    }
}

/// The registry's view after the changes, in order.
pub open spec fn apply_changes<P>(m: Map<Seq<char>, P>, cs: Seq<RegistryChange<P>>) -> Map<
    Seq<char>,
    P,
>
    decreases cs.len(),
{
    if cs.len() == 0 {
        m
    } else {
        apply_change(apply_changes(m, cs.drop_last()), cs.last())
    }
}

/// Whether the change closes `name`.
pub open spec fn closes<P>(c: RegistryChange<P>, name: Seq<char>) -> bool {
    c matches RegistryChange::Close(k) && k == name
}

/// Whether the change registers a pipe under `name`.
pub open spec fn registers<P>(c: RegistryChange<P>, name: Seq<char>) -> bool {
    c matches RegistryChange::Register(k, _) && k == name
}

/// Pipes die only when they are closed: through any sequence of changes
/// that does not close `name`, a pipe registered under `name` stays
/// registered, and if nothing else is registered under `name` either, it is
/// the very same pipe.
pub proof fn law_pipes_live_until_closed<P>(
    s: PipeState<P>,
    name: Seq<char>,
    changes: Seq<RegistryChange<P>>,
)
    requires
        s@.dom().contains(name),
        forall|i: int| 0 <= i < changes.len() ==> !closes(#[trigger] changes[i], name),
    ensures
        apply_changes(s@, changes).dom().contains(name),
        (forall|i: int| 0 <= i < changes.len() ==> !registers(#[trigger] changes[i], name))
            ==> apply_changes(s@, changes)[name] == s@[name],
{
    lemma_live_until_closed(s@, name, changes);
}

proof fn lemma_live_until_closed<P>(
    m: Map<Seq<char>, P>,
    name: Seq<char>,
    changes: Seq<RegistryChange<P>>,
)
    requires
        m.dom().contains(name),
        forall|i: int| 0 <= i < changes.len() ==> !closes(#[trigger] changes[i], name),
    ensures
        apply_changes(m, changes).dom().contains(name),
        (forall|i: int| 0 <= i < changes.len() ==> !registers(#[trigger] changes[i], name))
            ==> apply_changes(m, changes)[name] == m[name],
    decreases changes.len(),
{
    if changes.len() > 0 {
        let front = changes.drop_last();
        assert forall|i: int| 0 <= i < front.len() implies !closes(#[trigger] front[i], name) by {
            assert(front[i] == changes[i]);
        }
        lemma_live_until_closed(m, name, front);
        assert(!closes(changes[changes.len() - 1], name));
        if forall|i: int| 0 <= i < changes.len() ==> !registers(#[trigger] changes[i], name) {
            assert forall|i: int| 0 <= i < front.len() implies !registers(
                #[trigger] front[i],
                name,
            ) by {
                assert(front[i] == changes[i]);
            }
            assert(!registers(changes[changes.len() - 1], name));
        }
    }
}

} // verus!

verus! {

/// A channel of size `n > 0` has room for one more value exactly while it
/// buffers fewer than `n`; a channel of size 0 (a rendezvous) exactly while
/// it buffers nothing. The same holds of a pipe and its size.
pub proof fn law_room_follows_size<T>(c: Channel<T>, p: Pipe<T>)
    ensures
        c.cap() > 0 ==> (c.has_room() <==> c.items().len() < c.cap()),
        c.cap() == 0 ==> (c.has_room() <==> c.items().len() == 0),
        p.size() > 0 ==> (p.has_room() <==> p.receiver().channel().items().len() < p.size()),
        p.size() == 0 ==> (p.has_room() <==> p.receiver().channel().items().len() == 0),
{
}

/// Where strings are accepted and the value is not an accepted pipe handle,
/// a value that reads as a string names the pipe of exactly that name; a
/// value names no pipe exactly when it is neither an accepted handle nor an
/// accepted string.
pub proof fn law_string_names_itself(value: PipeArgValue, allowed: PipeArgAllowedTypes)
    ensures
        allowed.string && !(allowed.full && value.as_pipe_value is Some) && value.as_string is Some
            ==> spec_pipe_arg(value, allowed) == Some(value.as_string.unwrap()@),
        spec_pipe_arg(value, allowed) is None <==> !(allowed.full && value.as_pipe_value is Some)
            && !(allowed.string && value.as_string is Some),
{
}

/// A new pipe gets the size given with `--size`, converted as `as usize`
/// converts, and 32 without it.
pub proof fn law_pipe_size_is_the_flag(x: i64)
    ensures
        spec_pipe_size(Some(x)) == x as usize,
        spec_pipe_size(None) == 32,
{
}

/// `pipe get` with a string name succeeds exactly when a pipe of that name
/// is registered, and then names that pipe; a missing name and a name that
/// is not a string are errors of their own.
pub proof fn law_get_finds_registered<P>(state: PipeState<P>, name: String)
    ensures
        state@.dom().contains(name@) ==> spec_get_target(state, Some(Some(name))) == Ok::<
            Seq<char>,
            CommandError,
        >(name@),
        !state@.dom().contains(name@) ==> spec_get_target(state, Some(Some(name))) == Err::<
            Seq<char>,
            CommandError,
        >(CommandError::PipeGone),
        spec_get_target(state, None) == Err::<Seq<char>, CommandError>(
            CommandError::MissingNameArgument,
        ),
        spec_get_target(state, Some(None)) == Err::<Seq<char>, CommandError>(
            CommandError::NameNotString,
        ),
{
}

} // verus!


verus! {

/// A write into a channel that a reader is attached to succeeds, putting the
/// value at the back of the buffer, exactly while the buffer holds fewer
/// values than the channel's size (a channel of size 0: while it holds
/// nothing). Otherwise the value is handed back as `Full`; with no reader
/// attached it is handed back as `Disconnected`. Either way the buffer is
/// then left as it was.
pub proof fn law_send_buffers_up_to_size<T>(
    c: &mut Channel<T>,
    v: T,
    r: Result<(), TrySendError<T>>,
)
    requires
        call_ensures(Channel::<T>::try_send, (c, v), r),
    ensures
        old(c).receiver_count() > 0 && old(c).items().len() < (if old(c).cap() == 0 {
            1
        } else {
            old(c).cap()
        }) ==> (r is Ok && final(c).items() == old(c).items().push(v)),
        old(c).receiver_count() > 0 && old(c).items().len() >= (if old(c).cap() == 0 {
            1
        } else {
            old(c).cap()
        }) ==> r == Err::<(), TrySendError<T>>(TrySendError::Full(v)) && final(c).items()
            == old(c).items(),
        old(c).receiver_count() == 0 ==> r == Err::<(), TrySendError<T>>(
            TrySendError::Disconnected(v),
        ) && final(c).items() == old(c).items(),
        final(c).cap() == old(c).cap(),
{
}

/// A write into a pipe that can be read succeeds exactly while its channel
/// buffers fewer values than the pipe's size (size 0: while it buffers
/// nothing); the value then joins the end of what is pending and of what was
/// ever written. Otherwise it is handed back as `Full` and nothing changes.
pub proof fn law_pipe_write_buffers_up_to_size<T>(
    p: &mut Pipe<T>,
    v: T,
    r: Result<(), TrySendError<T>>,
)
    requires
        call_ensures(Pipe::<T>::try_send, (p, v), r),
    ensures
        old(p).reader_count() > 0 && old(p).receiver().channel().items().len() < (if old(p).size()
            == 0 {
            1
        } else {
            old(p).size()
        }) ==> (r is Ok && final(p).pending() == old(p).pending().push(v) && final(p).written_log()
            == old(p).written_log().push(v)),
        old(p).reader_count() > 0 && old(p).receiver().channel().items().len() >= (if old(p).size()
            == 0 {
            1
        } else {
            old(p).size()
        }) ==> r == Err::<(), TrySendError<T>>(TrySendError::Full(v)) && final(p).pending()
            == old(p).pending() && final(p).written_log() == old(p).written_log(),
        final(p).size() == old(p).size(),
{
}

/// `pipe new` without a name always succeeds: it registers the new pipe,
/// made with the `--size` flag (converted as `as usize` converts) or 32,
/// under a name of two words joined by a hyphen that no pipe had, and keeps
/// every other registration.
pub proof fn law_new_without_name_succeeds<P, F: FnOnce(usize) -> P>(
    cmd: NewPipeCmd,
    state: &mut PipeState<P>,
    error_on_existing: Option<bool>,
    size: Option<i64>,
    make_pipe: F,
    r: Result<PipeValue, CommandError>,
)
    requires
        call_ensures(
            NewPipeCmd::run::<P, F>,
            (&cmd, state, None::<String>, error_on_existing, size, make_pipe),
            r,
        ),
    ensures
        r matches Ok(v) && !old(state)@.dom().contains(v.0@) && is_petname(v.0@, 2, "-"@),
        r matches Ok(v) && exists|pipe: P|
            make_pipe.ensures(
                (
                    match size {
                        Some(x) => x as usize,
                        None => 32usize,
                    },
                ),
                pipe,
            ) && final(state)@ == old(state)@.insert(v.0@, pipe),
{
}

/// `pipe new` with a name that no pipe has registers the new pipe, made with
/// the `--size` flag (converted as `as usize` converts) or 32, under exactly
/// that name. With a taken name the registry is left as it was, and the
/// command fails with `NameExists` under `--error-on-clash`, and otherwise
/// hands back that name.
pub proof fn law_new_with_name<P, F: FnOnce(usize) -> P>(
    cmd: NewPipeCmd,
    state: &mut PipeState<P>,
    name: String,
    error_on_existing: Option<bool>,
    size: Option<i64>,
    make_pipe: F,
    r: Result<PipeValue, CommandError>,
)
    requires
        call_ensures(
            NewPipeCmd::run::<P, F>,
            (&cmd, state, Some(name), error_on_existing, size, make_pipe),
            r,
        ),
    ensures
        !old(state)@.dom().contains(name@) ==> (r matches Ok(v) && v.0@ == name@),
        !old(state)@.dom().contains(name@) ==> exists|pipe: P|
            make_pipe.ensures(
                (
                    match size {
                        Some(x) => x as usize,
                        None => 32usize,
                    },
                ),
                pipe,
            ) && final(state)@ == old(state)@.insert(name@, pipe),
        old(state)@.dom().contains(name@) && error_on_existing == Some(true) ==> r == Err::<
            PipeValue,
            CommandError,
        >(CommandError::NameExists) && final(state)@ == old(state)@,
        old(state)@.dom().contains(name@) && error_on_existing != Some(true) ==> (r matches Ok(
            v,
        ) && v.0@ == name@ && final(state)@ == old(state)@),
{
}

/// The size of a new pipe is the `--size` flag converted as `as usize`
/// converts, so a flag that fits is the size itself; without the flag it is
/// 32.
pub proof fn law_new_pipe_size(size: Option<i64>, r: usize)
    requires
        call_ensures(NewPipeCmd::pipe_size, (size,), r),
    ensures
        size matches Some(x) ==> r == x as usize,
        size matches Some(x) ==> (0 <= x <= usize::MAX ==> r == x),
        size is None ==> r == 32,
{
}

/// An argument names the pipe of its handle where handles are accepted and
/// it is one; otherwise, where strings are accepted and it reads as a
/// string, the pipe whose name is exactly that string, whatever characters
/// it holds; otherwise it is refused with `NotAPipe`.
pub proof fn law_pipe_arg_names(
    value: PipeArgValue,
    allowed: PipeArgAllowedTypes,
    r: Result<PipeId, PipeArgError>,
)
    requires
        call_ensures(pipe_arg_from_value, (value, &allowed), r),
    ensures
        allowed.full && value.as_pipe_value is Some ==> (r matches Ok(id) && id@
            == value.as_pipe_value.unwrap().0@),
        !(allowed.full && value.as_pipe_value is Some) && allowed.string && value.as_string is Some
            ==> (r matches Ok(id) && id@ == value.as_string.unwrap()@),
        !(allowed.full && value.as_pipe_value is Some) && !(allowed.string
            && value.as_string is Some) ==> r == Err::<PipeId, PipeArgError>(
            PipeArgError::NotAPipe,
        ),
{
}

/// Parsing an argument with a set of accepted kinds names the same pipe as
/// `pipe_arg_from_value` with that set, and fails exactly when it fails.
pub proof fn law_parse_value_agrees(
    value: PipeArgValue,
    allowed: PipeArgAllowedTypes,
    r: Result<PipeId, PipeArgError>,
    q: Result<PipeId, PipeArgError>,
)
    requires
        call_ensures(pipe_arg_from_value, (value, &allowed), r),
        call_ensures(PipeArgAllowedTypes::parse_value, (&allowed, value), q),
    ensures
        r is Ok <==> q is Ok,
        r matches Ok(a) ==> q matches Ok(b) && a@ == b@,
        r is Err ==> q == r,
{
}

/// `pipe get` with a name given as a string succeeds exactly when a pipe of
/// that name is registered, whatever characters the name holds, and hands
/// back a handle naming it; otherwise it fails with `PipeGone`. A missing
/// name and a name that is not a string fail with errors of their own.
pub proof fn law_get_pipe_by_name<P>(
    cmd: GetPipeCmd,
    state: PipeState<P>,
    name_arg: Option<Option<String>>,
    r: Result<PipeValue, CommandError>,
)
    requires
        call_ensures(GetPipeCmd::run::<P>, (&cmd, &state, name_arg), r),
    ensures
        match name_arg {
            None => r == Err::<PipeValue, CommandError>(CommandError::MissingNameArgument),
            Some(None) => r == Err::<PipeValue, CommandError>(CommandError::NameNotString),
            Some(Some(n)) => if state@.dom().contains(n@) {
                r matches Ok(v) && v.0@ == n@
            } else {
                r == Err::<PipeValue, CommandError>(CommandError::PipeGone)
            },
        },
{
}

/// `pipe get-sender` finds a pipe by name exactly as `pipe get` does.
pub proof fn law_get_sender_by_name<P>(
    cmd: GetPipeSenderCmd,
    state: PipeState<P>,
    name_arg: Option<Option<String>>,
    r: Result<PipeValue, CommandError>,
)
    requires
        call_ensures(GetPipeSenderCmd::run::<P>, (&cmd, &state, name_arg), r),
    ensures
        match name_arg {
            None => r == Err::<PipeValue, CommandError>(CommandError::MissingNameArgument),
            Some(None) => r == Err::<PipeValue, CommandError>(CommandError::NameNotString),
            Some(Some(n)) => if state@.dom().contains(n@) {
                r matches Ok(v) && v.0@ == n@
            } else {
                r == Err::<PipeValue, CommandError>(CommandError::PipeGone)
            },
        },
{
}

/// `pipe get-receiver` finds a pipe by name exactly as `pipe get` does.
pub proof fn law_get_receiver_by_name<P>(
    cmd: GetPipeReceiverCmd,
    state: PipeState<P>,
    name_arg: Option<Option<String>>,
    r: Result<PipeReaderValue, CommandError>,
)
    requires
        call_ensures(GetPipeReceiverCmd::run::<P>, (&cmd, &state, name_arg), r),
    ensures
        match name_arg {
            None => r == Err::<PipeReaderValue, CommandError>(CommandError::MissingNameArgument),
            Some(None) => r == Err::<PipeReaderValue, CommandError>(CommandError::NameNotString),
            Some(Some(n)) => if state@.dom().contains(n@) {
                r matches Ok(v) && v.0@ == n@
            } else {
                r == Err::<PipeReaderValue, CommandError>(CommandError::PipeGone)
            },
        },
{
}

} // verus!
