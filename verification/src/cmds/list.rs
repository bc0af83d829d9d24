use vstd::prelude::*;
use crate::state::PipeState;

verus! {

/// `pipe list`: the names of the registered pipes.
pub struct ListPipesCmd;

impl ListPipesCmd {
    pub fn name(&self) -> (res: &'static str)
        ensures
            res@ == "pipe list"@,
    {
        "pipe list"
    }

    pub fn description(&self) -> (res: &'static str)
        ensures
            res@ == "lists the existing pipes"@,
    {
        "lists the existing pipes"
    }

    /// The names of the registered pipes, each once.
    pub fn run<P>(&self, state: &PipeState<P>) -> (res: Vec<String>)
        ensures
            forall|i: int| 0 <= i < res@.len() ==> state@.dom().contains(#[trigger] res@[i]@),
            forall|k: Seq<char>|
                #[trigger] state@.dom().contains(k) ==> exists|i: int|
                    0 <= i < res@.len() && #[trigger] res@[i]@ == k,
            forall|i: int, j: int|
                0 <= i < res@.len() && 0 <= j < res@.len() && i != j ==> #[trigger] res@[i]@
                    != #[trigger] res@[j]@,
    {
        let ids = state.list_pipes();
        let mut res: Vec<String> = Vec::new();
        let mut i: usize = 0;
        while i < ids.len()
            invariant
                i <= ids@.len(),
                res@.len() == i,
                forall|j: int| 0 <= j < i ==> #[trigger] res@[j]@ == ids@[j]@,
            decreases ids@.len() - i,
        {
            res.push(ids[i].0.clone());
            i = i + 1;
        }
        assert forall|k: Seq<char>| #[trigger] state@.dom().contains(k) implies exists|j: int|
            0 <= j < res@.len() && #[trigger] res@[j]@ == k by {
            let j = choose|j: int| 0 <= j < ids@.len() && #[trigger] ids@[j]@ == k;
            assert(res@[j]@ == k);
        }
        assert forall|a: int, b: int|
            0 <= a < res@.len() && 0 <= b < res@.len() && a != b implies #[trigger] res@[a]@
                != #[trigger] res@[b]@ by {
            assert(res@[a]@ == ids@[a]@);
            assert(res@[b]@ == ids@[b]@);
        }
        assert forall|a: int| 0 <= a < res@.len() implies state@.dom().contains(
            #[trigger] res@[a]@,
        ) by {
            assert(res@[a]@ == ids@[a]@);
        }
        res
    }
}

} // verus!
