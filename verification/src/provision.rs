//! A model of the runtime's provisioning store: the set of model names
//! whose weights are present. Pulling a model ensures it is present and
//! always succeeds; pulling an already-provisioned model changes nothing.

use vstd::prelude::*;

verus! {

/// The effect of a successful pull on the set of provisioned models.
pub open spec fn provision(models: Set<Seq<char>>, model: Seq<char>) -> Set<Seq<char>> {
    models.insert(model)
}

/// Pulling is idempotent: a second pull of the same model leaves the store
/// as the first pull left it, and the model is provisioned after a pull.
pub proof fn lemma_provision_idempotent(models: Set<Seq<char>>, model: Seq<char>)
    ensures
        provision(provision(models, model), model) == provision(models, model),
        provision(models, model).contains(model),
{
    assert(provision(provision(models, model), model) =~= provision(models, model));
}

/// The provisioning store: the names of the models whose weights are
/// present, viewed as a set of character sequences.
#[derive(Clone, Debug, PartialEq, Eq)]
pub struct ModelStore {
    models: Vec<String>,
}

impl ModelStore {
    /// The set of provisioned model names.
    pub closed spec fn view(&self) -> Set<Seq<char>> {
        Set::new(|m: Seq<char>| exists|i: int|
            0 <= i < self.models@.len() && #[trigger] self.models@[i]@ == m)
    }

    /// An empty store: no model is provisioned.
    pub fn new() -> (s: ModelStore)
        ensures
            s@ == Set::<Seq<char>>::empty(),
    {
        let s = ModelStore { models: Vec::new() };
        proof {
            assert(s@ =~= Set::<Seq<char>>::empty());
        }
        s
    }

    /// Whether the named model is provisioned.
    pub fn contains(&self, model: &String) -> (r: bool)
        ensures
            r == self@.contains(model@),
    {
        let mut i: usize = 0;
        while i < self.models.len()
            invariant
                i <= self.models@.len(),
                forall|j: int| 0 <= j < i ==> #[trigger] self.models@[j]@ != model@,
            decreases self.models@.len() - i,
        {
            if self.models[i] == *model {
                return true;
            }
            i = i + 1;
        }
        false
    }

    /// Pull a model: afterwards it is provisioned, nothing else changes,
    /// and the operation succeeds whether or not the model was already
    /// provisioned.
    pub fn pull(&mut self, model: &String)
        ensures
            final(self)@ == provision(old(self)@, model@),
    {
        if !self.contains(model) {
            let ghost pre: Seq<String> = self.models@;
            self.models.push(model.clone());
            proof {
                assert forall|m: Seq<char>| self@.contains(m) implies provision(
                    old(self)@,
                    model@,
                ).contains(m) by {
                    let i = choose|i: int|
                        0 <= i < self.models@.len() && #[trigger] self.models@[i]@ == m;
                    if i < pre.len() {
                        assert(pre[i]@ == m);
                    }
                }
                assert forall|m: Seq<char>| provision(old(self)@, model@).contains(m) implies
                    self@.contains(m) by {
                    if m == model@ {
                        assert(self.models@[pre.len() as int]@ == m);
                    } else {
                        let i = choose|i: int| 0 <= i < pre.len() && #[trigger] pre[i]@ == m;
                        assert(self.models@[i]@ == m);
                    }
                }
                assert(self@ =~= provision(old(self)@, model@));
            }
        } else {
            proof {
                assert(self@ =~= provision(old(self)@, model@));
            }
        }
    }
}

} // verus!
