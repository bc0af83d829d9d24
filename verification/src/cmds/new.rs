use vstd::prelude::*;
use crate::cmds::CommandError;
use crate::names::{NameGenerator, is_petname, is_name_word, join_words};
use vstd::string::{StrSliceExecFns, StringExecFns};
use crate::pipe::DEFAULT_PIPE_SIZE;
use crate::pipe_id::{PipeId, PipeValue};
use crate::state::PipeState;

verus! {

/// `pipe new`: creates and registers a new pipe and returns a handle to it.
pub struct NewPipeCmd;

/// The size a pipe is made with: the `--size` flag converted as `as usize`
/// converts, or the default.
pub open spec fn spec_pipe_size(size: Option<i64>) -> usize {
    match size {
        Some(x) => x as usize,
        None => DEFAULT_PIPE_SIZE,
    }
}

/// `n` letters `a`.
pub open spec fn a_run(n: nat) -> Seq<char> {
    Seq::new(n, |i: int| 'a')
}

/// A name of the generated shape (two words joined by a hyphen) that is
/// longer than every registered name, so that none is registered.
fn name_beyond<P>(state: &PipeState<P>) -> (res: String)
    ensures
        !state@.dom().contains(res@),
        is_petname(res@, 2, "-"@),
{
    let ids = state.list_pipes();
    let mut longest: usize = 0;
    let mut i: usize = 0;
    while i < ids.len()
        invariant
            i <= ids@.len(),
            forall|j: int| 0 <= j < i ==> #[trigger] ids@[j]@.len() <= longest,
        decreases ids@.len() - i,
    {
        let n: usize = ids[i].as_str().unicode_len();
        if n > longest {
            longest = n;
        }
        i = i + 1;
    }
    proof {
        reveal_strlit("a");
        reveal_strlit("a-");
        reveal_strlit("-");
    }
    let mut tail = String::from_str("a");
    assert(tail@ =~= a_run(1));
    let mut k: usize = 0;
    while k < longest
        invariant
            k <= longest,
            tail@ == a_run(k as nat + 1),
            "a"@ == seq!['a'],
        decreases longest - k,
    {
        tail.append("a");
        assert(tail@ =~= a_run(k as nat + 2));
        k = k + 1;
    }
    let mut name = String::from_str("a-");
    name.append(tail.as_str());
    proof {
        let w1 = seq!['a'];
        let w2 = a_run(longest as nat + 1);
        let ws = seq![w1, w2];
        assert(is_name_word(w1));
        assert(is_name_word(w2));
        assert(ws.drop_last() =~= seq![w1]);
        assert(join_words(ws.drop_last(), "-"@) == w1);
        assert(name@ =~= w1 + "-"@ + w2);
        assert(join_words(ws, "-"@) == w1 + "-"@ + w2);
        assert(forall|t: int| 0 <= t < ws.len() ==> is_name_word(#[trigger] ws[t]));
        assert(name@.len() == longest + 3);
        if state@.dom().contains(name@) {
            let j = choose|j: int| 0 <= j < ids@.len() && #[trigger] ids@[j]@ == name@;
            assert(ids@[j]@.len() <= longest);
        }
    }
    name
}

impl NewPipeCmd {
    pub fn name(&self) -> (res: &'static str)
        ensures
            res@ == "pipe new"@,
    {
        "pipe new"
    }

    pub fn description(&self) -> (res: &'static str)
        ensures
            res@ == " Creates and registers a new named pipe to the system and returns its name. If not given a name, a random name will be generated.\n        "@,
    {
        " Creates and registers a new named pipe to the system and returns its name. If not given a name, a random name will be generated.\n        "
    }

    /// The size of the new pipe; see `spec_pipe_size`.
    pub fn pipe_size(size: Option<i64>) -> (res: usize)
        ensures
            res == spec_pipe_size(size),
            size matches Some(x) ==> res == x as usize,
            size is None ==> res == 32,
    {
        match size {
            Some(x) => x as usize,
            None => DEFAULT_PIPE_SIZE,
        }
    }

    /// Registers a new pipe, made by `make_pipe` from the requested size,
    /// under `name`, or under a random free name when none is given. When a
    /// pipe of the given name exists already, the command fails if
    /// `error_on_existing` is set and otherwise hands back that existing
    /// pipe, unchanged. A random name is two words joined by a hyphen and is
    /// always free: should every drawn name be taken, a name of the same shape
    /// that is longer than every registered name is used.
    pub fn run<P, F: FnOnce(usize) -> P>(
        &self,
        state: &mut PipeState<P>,
        name: Option<String>,
        error_on_existing: Option<bool>,
        size: Option<i64>,
        make_pipe: F,
    ) -> (res: Result<PipeValue, CommandError>)
        requires
            forall|n: usize| make_pipe.requires((n,)),
        ensures
            match name {
                Some(n) => if !old(state)@.dom().contains(n@) {
                    res matches Ok(v) && v.0@ == n@
                } else if error_on_existing == Some(true) {
                    res == Err::<PipeValue, CommandError>(CommandError::NameExists)
                        && final(state)@ == old(state)@
                } else {
                    res matches Ok(v) && v.0@ == n@ && final(state)@ == old(state)@
                },
                None => res matches Ok(v) && v.0@.len() > 0 && !old(state)@.dom().contains(v.0@)
                    && is_petname(v.0@, 2, "-"@),
            },
            match res {
                Ok(v) => !old(state)@.dom().contains(v.0@) ==> exists|p: P|
                    make_pipe.ensures((spec_pipe_size(size),), p) && final(state)@
                        == old(state)@.insert(v.0@, p),
                Err(_) => true,
            },
            match res {
                Ok(v) => !old(state)@.dom().contains(v.0@) ==> exists|p: P|
                    make_pipe.ensures(
                        (
                            match size {
                                Some(x) => x as usize,
                                None => 32usize,
                            },
                        ),
                        p,
                    ) && final(state)@ == old(state)@.insert(v.0@, p),
                Err(_) => true,
            },
    {
        let chosen = match name {
            Some(name) => {
                if state.pipe_exists(name.as_str()) {
                    if error_on_existing.unwrap_or(false) {
                        return Err(CommandError::NameExists);
                    }
                    return Ok(PipeValue::new(PipeId::new(name)));
                }
                name
            },
            None => {
                let generator = NameGenerator::random_pipe_names();
                let current: &PipeState<P> = &*state;
                let taken = |candidate: &String| -> (b: bool)
                    ensures
                        b == current@.dom().contains(candidate@),
                    { current.pipe_exists(candidate.as_str()) };
                match generator.generate_distinct(taken) {
                    Some(fresh) => fresh,
                    None => name_beyond(current),
                }
            },
        };
        let size = NewPipeCmd::pipe_size(size);
        let pipe = make_pipe(size);
        let id: PipeId = state.new_pipe(chosen, pipe);
        Ok(PipeValue::new(id))
    }
}

} // verus!
