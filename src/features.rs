//! The parameter trees of the known devices, one per device whose session
//! has loaded its description.
use crate::genapi::{category_built_from, category_step, top_categories, Feature, GenApi, Msg, Target};
use crate::identity::CameraId;
use crate::Error;
use std::collections::HashMap;
use vstd::prelude::*;

verus! {

broadcast use vstd::std_specs::hash::group_hash_axioms;

/// The parameter trees, by the value of the device identity.
pub struct Features<N> {
    trees: HashMap<u64, GenApi<N>>,
}

impl<N> Features<N> {
    /// The trees, keyed by identity value.
    pub closed spec fn trees(&self) -> Map<u64, GenApi<N>> {
        self.trees@
    }

    /// No trees.
    pub fn new() -> (r: Features<N>)
        ensures
            r.trees() == Map::<u64, GenApi<N>>::empty(),
    {
        Features { trees: HashMap::new() }
    }

    /// The tree of a device, if it has been loaded.
    pub fn get(&self, id: CameraId) -> (r: Option<&GenApi<N>>)
        ensures
            match r {
                Some(g) => self.trees().contains_key(id.0) && *g == self.trees()[id.0],
                None => !self.trees().contains_key(id.0),
            },
    {
        self.trees.get(&id.0)
    }

    /// Builds a device's tree from the description of its root feature,
    /// replacing any earlier one: a tree does not outlive the session it was
    /// built for. A malformed description is an `InternalError` and leaves
    /// the trees as they were.
    pub fn load(&mut self, id: CameraId, root: Option<Feature<N>>) -> (r: Result<(), Error>)
        ensures
            r is Ok <==> (root matches Some(f) && f.interfaces.category),
            r is Err ==> (r matches Err(Error::InternalError(_))) && final(self).trees() == old(self).trees(),
            r is Ok ==> final(self).trees().contains_key(id.0)
                && final(self).trees().remove(id.0) == old(self).trees().remove(id.0),
            r is Ok ==> match root {
                Some(f) => {
                    let tops = final(self).trees()[id.0].tops();
                    &&& tops.len() == top_categories(f.children@).len()
                    &&& forall|i: int| 0 <= i < tops.len() ==>
                        category_built_from(#[trigger] top_categories(f.children@)[i], tops[i])
                },
                None => false,
            },
    {
        match GenApi::new(root) {
            Ok(g) => {
                self.trees.insert(id.0, g);
                proof {
                    assert(self.trees@.remove(id.0) =~= old(self).trees@.remove(id.0));
                }
                Ok(())
            },
            Err(e) => Err(e),
        }
    }

    /// Drops a device's tree.
    pub fn forget(&mut self, id: CameraId)
        ensures
            final(self).trees() == old(self).trees().remove(id.0),
    {
        let _ = self.trees.remove(&id.0);
    }
}

impl<N: Copy> Features<N> {
    /// Routes an update message into a device's tree; a device without a
    /// tree is `NotFound`.
    pub fn update(&mut self, id: CameraId, msg: Msg) -> (r: Result<Option<Target<N>>, Error>)
        ensures
            !old(self).trees().contains_key(id.0) ==> r == Err::<Option<Target<N>>, Error>(Error::NotFound(id))
                && final(self).trees() == old(self).trees(),
            old(self).trees().contains_key(id.0) ==> {
                &&& r is Ok
                &&& final(self).trees().dom() == old(self).trees().dom()
                &&& final(self).trees().remove(id.0) == old(self).trees().remove(id.0)
                &&& match (msg, r) {
                    (Msg::Category(i, m), Ok(t)) => {
                        let before = old(self).trees()[id.0].tops();
                        let after = final(self).trees()[id.0].tops();
                        if i >= before.len() {
                            after == before && t is None
                        } else {
                            &&& after.len() == before.len()
                            &&& forall|j: int| 0 <= j < before.len() && j != i ==> after[j] == before[j]
                            &&& category_step(before[i as int], after[i as int], m, t)
                        }
                    },
                    _ => true,
                }
            },
    {
        match self.trees.remove(&id.0) {
            None => {
                proof {
                    assert(self.trees@ =~= old(self).trees@);
                }
                Err(Error::NotFound(id))
            },
            Some(mut g) => {
                let t = g.update(msg);
                self.trees.insert(id.0, g);
                proof {
                    assert(self.trees@.remove(id.0) =~= old(self).trees@.remove(id.0));
                    assert(self.trees@.dom() =~= old(self).trees@.dom());
                }
                Ok(t)
            },
        }
    }
}

} // verus!
