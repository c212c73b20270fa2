//! How the device list marks the selected device.
use crate::identity::{display_name, display_name_of, CameraId};
use crate::registry::Context;
use vstd::prelude::*;

verus! {

/// The look of one entry of the device list.
#[derive(Clone, Copy, Debug, PartialEq, Eq, Structural)]
pub struct Button {
    pub is_selected: bool,
}

impl Button {
    /// The entry for device `id`, marked when it is the selected device.
    pub fn new(selected: Option<CameraId>, id: CameraId) -> (r: Button)
        ensures
            r.is_selected == (selected == Some(id)),
    {
        let is_selected = match selected {
            Some(s) => s.0 == id.0,
            None => false,
        };
        Button { is_selected }
    }
}

/// The device list: each known device's identity and display name, in
/// ascending order of identity value.
pub struct Selector {
    pub options: Vec<(CameraId, String)>,
}

/// The entries are strictly ascending by identity value.
pub open spec fn ascending(options: Seq<(CameraId, String)>) -> bool {
    forall|i: int, j: int| 0 <= i < j < options.len() ==> (#[trigger] options[i]).0.0 < (#[trigger] options[j]).0.0
}

/// Each entry is a device of `ctx`, named by its display name.
pub open spec fn entries_named<H>(options: Seq<(CameraId, String)>, ctx: Context<H>) -> bool {
    forall|i: int| 0 <= i < options.len() ==> {
        let (id, name) = #[trigger] options[i];
        &&& ctx.has(id)
        &&& name@ == display_name_of(ctx.slots()[id.0].info)
    }
}

/// Whether the list has an entry for `id`.
pub open spec fn lists(options: Seq<(CameraId, String)>, id: CameraId) -> bool {
    exists|e: int| 0 <= e < options.len() && (#[trigger] options[e]).0 == id
}

impl Selector {
    /// An empty list.
    pub fn new() -> (r: Selector)
        ensures
            r.options@.len() == 0,
    {
        Selector { options: Vec::new() }
    }

    /// Brings the list in line with the registry: one entry per known
    /// device, ascending by identity, named by its display name.
    pub fn sync<H>(&mut self, ctx: &Context<H>)
        requires
            ctx.wf(),
        ensures
            ascending(final(self).options@),
            entries_named(final(self).options@, *ctx),
            forall|k: u64| #[trigger] ctx.slots().contains_key(k) ==> exists|i: int|
                0 <= i < final(self).options@.len() && final(self).options@[i].0.0 == k,
    {
        let ids = ctx.ids();
        let mut options: Vec<(CameraId, String)> = Vec::new();
        let mut i: usize = 0;
        while i < ids.len()
            invariant
                ctx.wf(),
                ids@ == ctx.order(),
                i <= ids@.len(),
                ascending(options@),
                entries_named(options@, *ctx),
                forall|j: int| 0 <= j < i ==> lists(options@, #[trigger] ids@[j]),
                forall|e: int| 0 <= e < options@.len() ==> exists|j: int| 0 <= j < i && (#[trigger] options@[e]).0 == ids@[j],
            decreases ids@.len() - i,
        {
            let id = ids[i];
            let mut pos: usize = 0;
            while pos < options.len() && options[pos].0.0 < id.0
                invariant
                    pos <= options@.len(),
                    forall|e: int| 0 <= e < pos ==> (#[trigger] options@[e]).0.0 < id.0,
                decreases options@.len() - pos,
            {
                pos = pos + 1;
            }
            proof {
                assert forall|e: int| 0 <= e < options@.len() implies (#[trigger] options@[e]).0.0 != id.0 by {
                    let j = choose|j: int| 0 <= j < i && options@[e].0 == ids@[j];
                    assert(ids@[j] != ids@[i as int]);
                }
            }
            match ctx.get(id) {
                Some(slot) => {
                    let ghost before = options@;
                    let entry = (id, display_name(&slot.info));
                    options.insert(pos, entry);
                    proof {
                        assert(options@ == before.insert(pos as int, entry));
                        assert forall|a: int, b: int| 0 <= a < b < options@.len() implies
                            (#[trigger] options@[a]).0.0 < (#[trigger] options@[b]).0.0 by {
                            if a < pos && b == pos {
                            } else if a == pos && b > pos {
                                assert(options@[b] == before[b - 1]);
                                assert(before[b - 1].0.0 != id.0);
                                if b - 1 > pos {
                                    assert(before[pos as int].0.0 < before[b - 1].0.0);
                                }
                            } else if a < pos && b > pos {
                                assert(options@[b] == before[b - 1]);
                            } else if a > pos {
                                assert(options@[a] == before[a - 1]);
                                assert(options@[b] == before[b - 1]);
                            }
                        }
                        assert forall|e: int| 0 <= e < options@.len() implies {
                            let (cid, name) = #[trigger] options@[e];
                            &&& ctx.has(cid)
                            &&& name@ == display_name_of(ctx.slots()[cid.0].info)
                        } by {
                            if e > pos {
                                assert(options@[e] == before[e - 1]);
                            }
                        }
                        assert forall|j: int| 0 <= j < i + 1 implies lists(options@, #[trigger] ids@[j]) by {
                            if j == i {
                                assert(options@[pos as int].0 == ids@[j]);
                            } else {
                                let e = choose|e: int| 0 <= e < before.len() && before[e].0 == ids@[j];
                                if e < pos {
                                    assert(options@[e].0 == ids@[j]);
                                } else {
                                    assert(options@[e + 1].0 == ids@[j]);
                                }
                            }
                        }
                        assert forall|e: int| 0 <= e < options@.len() implies exists|j: int|
                            0 <= j < i + 1 && (#[trigger] options@[e]).0 == ids@[j] by {
                            if e == pos {
                                assert(options@[e].0 == ids@[i as int]);
                            } else if e < pos {
                                let j = choose|j: int| 0 <= j < i && before[e].0 == ids@[j];
                                assert(options@[e].0 == ids@[j]);
                            } else {
                                let j = choose|j: int| 0 <= j < i && before[e - 1].0 == ids@[j];
                                assert(options@[e].0 == ids@[j]);
                            }
                        }
                    }
                },
                None => {
                    proof {
                        assert(ctx.slots().contains_key(ctx.order()[i as int].0));
                    }
                },
            }
            i = i + 1;
        }
        proof {
            assert forall|k: u64| #[trigger] ctx.slots().contains_key(k) implies exists|e: int|
                0 <= e < options@.len() && options@[e].0.0 == k by {
                let j = choose|j: int| 0 <= j < ctx.order().len() && #[trigger] ctx.order()[j].0 == k;
                assert(lists(options@, ids@[j]));
                let e = choose|e: int| 0 <= e < options@.len() && (#[trigger] options@[e]).0 == ids@[j];
                assert(options@[e].0.0 == k);
            }
        }
        self.options = options;
    }
}

} // verus!
