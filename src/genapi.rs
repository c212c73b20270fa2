//! The parameter tree: a device's features as a tree of typed nodes.
//!
//! The tree is built once per opened session from a description of the
//! device's features. Its shape never changes afterwards; only the values
//! behind its handles do, and those are read and written by the owner of the
//! device handle. The tree routes an update message to its node and decides
//! what, if anything, is to be written.
use crate::{Error, Rejected};
use vstd::prelude::*;
use vstd::string::{StrSliceExecFns, StringExecFns};

verus! {

/// The kinds of feature node, in the order in which a described feature is
/// tried against them.
#[derive(Clone, Copy, Debug, PartialEq, Eq, Structural)]
pub enum Kind {
    Boolean,
    Integer,
    Float,
    Enumeration,
    Command,
    String,
    Category,
}

/// Which node interfaces a described feature implements.
#[derive(Clone, Copy, Debug, PartialEq, Eq, Structural)]
pub struct Interfaces {
    pub boolean: bool,
    pub integer: bool,
    pub float: bool,
    pub enumeration: bool,
    pub command: bool,
    pub string: bool,
    pub category: bool,
}

/// The kind of a feature: the first interface it implements, in the order
/// boolean, integer, float, enumeration, command, string, category.
pub open spec fn kind_of(i: Interfaces) -> Option<Kind> {
    if i.boolean {
        Some(Kind::Boolean)
    } else if i.integer {
        Some(Kind::Integer)
    } else if i.float {
        Some(Kind::Float)
    } else if i.enumeration {
        Some(Kind::Enumeration)
    } else if i.command {
        Some(Kind::Command)
    } else if i.string {
        Some(Kind::String)
    } else if i.category {
        Some(Kind::Category)
    } else {
        None
    }
}

/// Classifies a feature by the interfaces it implements; `None` for a
/// feature that implements none of them.
pub fn classify(i: &Interfaces) -> (r: Option<Kind>)
    ensures
        r == kind_of(*i),
{
    if i.boolean {
        Some(Kind::Boolean)
    } else if i.integer {
        Some(Kind::Integer)
    } else if i.float {
        Some(Kind::Float)
    } else if i.enumeration {
        Some(Kind::Enumeration)
    } else if i.command {
        Some(Kind::Command)
    } else if i.string {
        Some(Kind::String)
    } else if i.category {
        Some(Kind::Category)
    } else {
        None
    }
}

/// Whether a feature name lies in the reserved chunk-data namespace.
pub open spec fn is_chunk_name(name: Seq<char>) -> bool {
    name.len() >= 5 && name.subrange(0, 5) == seq!['C', 'h', 'u', 'n', 'k']
}

/// Whether a name starts with `Chunk`.
pub fn is_chunk(name: &str) -> (r: bool)
    ensures
        r == is_chunk_name(name@),
{
    let n = name.unicode_len();
    if n < 5 {
        return false;
    }
    let r = name.get_char(0) == 'C' && name.get_char(1) == 'h' && name.get_char(2) == 'u'
        && name.get_char(3) == 'n' && name.get_char(4) == 'k';
    proof {
        if r {
            assert(name@.subrange(0, 5) =~= seq!['C', 'h', 'u', 'n', 'k']);
        } else {
            if name@.subrange(0, 5) == seq!['C', 'h', 'u', 'n', 'k'] {
                assert(name@.subrange(0, 5)[0] == name@[0]);
                assert(name@.subrange(0, 5)[1] == name@[1]);
                assert(name@.subrange(0, 5)[2] == name@[2]);
                assert(name@.subrange(0, 5)[3] == name@[3]);
                assert(name@.subrange(0, 5)[4] == name@[4]);
            }
        }
    }
    r
}

/// One legal value of an enumeration: its display name and integer code.
#[derive(Clone, Debug, PartialEq, Eq)]
pub struct Entry {
    name: String,
    value: i64,
}

impl Entry {
    /// An entry with this display name and code.
    pub fn new(name: String, value: i64) -> (r: Entry)
        ensures
            r.name_view() == name@,
            r.code() == value,
    {
        Entry { name, value }
    }

    /// The display name, as characters.
    pub closed spec fn name_view(&self) -> Seq<char> {
        self.name@
    }

    /// The integer code.
    pub closed spec fn code(&self) -> i64 {
        self.value
    }

    /// The display name.
    pub fn name(&self) -> (r: &str)
        ensures
            r@ == self.name_view(),
    {
        self.name.as_str()
    }

    /// The integer code.
    pub fn value(&self) -> (r: i64)
        ensures
            r == self.code(),
    {
        self.value
    }
}

/// Whether some entry carries code `v`.
pub open spec fn has_code(entries: Seq<Entry>, v: i64) -> bool {
    exists|i: int| 0 <= i < entries.len() && #[trigger] entries[i].code() == v
}

/// A feature as the device describes it: a handle through which its value
/// is reached, its name, the interfaces it implements, its entries when it is
/// an enumeration and its features when it is a category.
pub struct Feature<N> {
    pub handle: N,
    pub name: String,
    pub interfaces: Interfaces,
    pub entries: Vec<Entry>,
    pub children: Vec<Feature<N>>,
}

/// A leaf feature: its handle and name.
pub struct Leaf<N> {
    pub handle: N,
    pub name: String,
}

/// An enumeration feature with its legal entries, in description order.
pub struct Enumeration<N> {
    pub handle: N,
    pub name: String,
    pub entries: Vec<Entry>,
}

/// A category: a named, ordered group of features, shown expanded or not.
pub struct Category<N> {
    pub handle: N,
    pub name: String,
    pub expanded: bool,
    pub features: Vec<Node<N>>,
}

/// A node of the tree, one variant per kind.
pub enum Node<N> {
    Boolean(Leaf<N>),
    Integer(Leaf<N>),
    Float(Leaf<N>),
    Enumeration(Enumeration<N>),
    Command(Leaf<N>),
    String(Leaf<N>),
    Category(Category<N>),
}

/// The kind of a node.
pub open spec fn node_kind<N>(n: Node<N>) -> Kind {
    match n {
        Node::Boolean(_) => Kind::Boolean,
        Node::Integer(_) => Kind::Integer,
        Node::Float(_) => Kind::Float,
        Node::Enumeration(_) => Kind::Enumeration,
        Node::Command(_) => Kind::Command,
        Node::String(_) => Kind::String,
        Node::Category(_) => Kind::Category,
    }
}

/// The handle and name of a node.
pub open spec fn node_head<N>(n: Node<N>) -> (N, Seq<char>) {
    match n {
        Node::Boolean(l) => (l.handle, l.name@),
        Node::Integer(l) => (l.handle, l.name@),
        Node::Float(l) => (l.handle, l.name@),
        Node::Enumeration(e) => (e.handle, e.name@),
        Node::Command(l) => (l.handle, l.name@),
        Node::String(l) => (l.handle, l.name@),
        Node::Category(c) => (c.handle, c.name@),
    }
}

/// Whether a child feature of a category becomes a node: it is outside the
/// chunk-data namespace and of a known kind.
pub open spec fn is_kept<N>(f: Feature<N>) -> bool {
    !is_chunk_name(f.name@) && kind_of(f.interfaces) is Some
}

/// The child features of a category that become nodes, in order.
pub open spec fn kept<N>(fs: Seq<Feature<N>>) -> Seq<Feature<N>>
    decreases fs.len(),
{
    if fs.len() == 0 {
        Seq::empty()
    } else {
        let r = kept(fs.drop_last());
        if is_kept(fs.last()) {
            r.push(fs.last())
        } else {
            r
        }
    }
}

/// Every feature that `kept` keeps from `fs` is one of `fs`.
pub proof fn lemma_kept_from<N>(fs: Seq<Feature<N>>, i: int)
    requires
        0 <= i < kept(fs).len(),
    ensures
        exists|j: int| 0 <= j < fs.len() && fs[j] == kept(fs)[i],
    decreases fs.len(),
{
    let r = kept(fs.drop_last());
    if is_kept(fs.last()) && i == r.len() {
        assert(fs[fs.len() - 1] == kept(fs)[i]);
    } else {
        lemma_kept_from(fs.drop_last(), i);
        let j = choose|j: int| 0 <= j < fs.drop_last().len() && fs.drop_last()[j] == kept(fs.drop_last())[i];
        assert(fs[j] == kept(fs)[i]);
    }
}

/// `n` is the node built from feature `f`: of the kind `f` is classified
/// as, with `f`'s handle and name; an enumeration with `f`'s entries; a
/// category as `category_built_from` says.
pub open spec fn built_from<N>(f: Feature<N>, n: Node<N>) -> bool
    decreases f, 1nat,
{
    &&& kind_of(f.interfaces) == Some(node_kind(n))
    &&& node_head(n) == (f.handle, f.name@)
    &&& match n {
        Node::Enumeration(e) => e.entries@ == f.entries@,
        Node::Category(c) => category_built_from(f, c),
        _ => true,
    }
}

/// `c` is the category built from feature `f`: collapsed, with `f`'s handle
/// and name, and one node per kept child, in order, each built from its
/// feature, to the full depth of the description.
pub open spec fn category_built_from<N>(f: Feature<N>, c: Category<N>) -> bool
    decreases f, 0nat,
{
    proof {
        assert forall|i: int| 0 <= i < kept(f.children@).len() implies
            decreases_to!(f => #[trigger] kept(f.children@)[i]) by {
            lemma_kept_from(f.children@, i);
            let j = choose|j: int| 0 <= j < f.children@.len() && f.children@[j] == kept(f.children@)[i];
            assert(decreases_to!(f.children => f.children@[j]));
        }
    }
    &&& c.handle == f.handle
    &&& c.name@ == f.name@
    &&& !c.expanded
    &&& c.features@.len() == kept(f.children@).len()
    &&& forall|i: int| 0 <= i < c.features@.len() ==>
        built_from(#[trigger] kept(f.children@)[i], c.features@[i])
}

impl<N> Node<N> {
    /// Builds the node for a described feature: `None` when the feature
    /// implements none of the known interfaces.
    pub fn new(f: Feature<N>) -> (r: Option<Node<N>>)
        ensures
            match r {
                Some(n) => built_from(f, n),
                None => kind_of(f.interfaces) is None,
            },
        decreases f,
    {
        let ghost g = f;
        match classify(&f.interfaces) {
            None => None,
            Some(Kind::Boolean) => Some(Node::Boolean(Leaf { handle: f.handle, name: f.name })),
            Some(Kind::Integer) => Some(Node::Integer(Leaf { handle: f.handle, name: f.name })),
            Some(Kind::Float) => Some(Node::Float(Leaf { handle: f.handle, name: f.name })),
            Some(Kind::Enumeration) => Some(
                Node::Enumeration(Enumeration { handle: f.handle, name: f.name, entries: f.entries }),
            ),
            Some(Kind::Command) => Some(Node::Command(Leaf { handle: f.handle, name: f.name })),
            Some(Kind::String) => Some(Node::String(Leaf { handle: f.handle, name: f.name })),
            Some(Kind::Category) => Some(Node::Category(Category::new(f))),
        }
    }
}

impl<N> Category<N> {
    /// Builds a collapsed category from a described feature, with one node
    /// per child feature that is outside the chunk-data namespace and of a
    /// known kind, in description order.
    pub fn new(f: Feature<N>) -> (c: Category<N>)
        ensures
            category_built_from(f, c),
        decreases f, 1nat,
    {
        let ghost all = f.children@;
        let Feature { handle, name, interfaces: _, entries: _, children } = f;
        let mut children = children;
        let mut features: Vec<Node<N>> = Vec::new();
        let ghost mut done: int = 0;
        while children.len() > 0
            invariant
                0 <= done <= all.len(),
                children@ == all.subrange(done, all.len() as int),
                features@.len() == kept(all.subrange(0, done)).len(),
                forall|i: int| 0 <= i < features@.len() ==>
                    built_from(#[trigger] kept(all.subrange(0, done))[i], features@[i]),
                forall|i: int| 0 <= i < children@.len() ==> decreases_to!(f => #[trigger] children@[i]),
            decreases children@.len(),
        {
            let child = children.remove(0);
            let ghost prefix = all.subrange(0, done);
            assert(all.subrange(0, done + 1).drop_last() =~= prefix);
            assert(all.subrange(0, done + 1).last() == child);
            let ghost before = features@;
            if !is_chunk(child.name.as_str()) {
                proof {
                    assert(decreases_to!(f => child));
                }
                match Node::new(child) {
                    Some(n) => {
                        features.push(n);
                    },
                    None => {},
                }
            }
            proof {
                done = done + 1;
                assert(children@ =~= all.subrange(done, all.len() as int));
            }
        }
        assert(all.subrange(0, done) =~= all);
        Category { handle, name, expanded: false, features }
    }
}

/// The update messages that reach a node in a category.
pub enum CategoryMsg {
    /// Toggle whether the category shows its features.
    Expand,
    /// A message for the feature at this position.
    Node(usize, Box<NodeMsg>),
}

/// The update messages of each node kind.
pub enum NodeMsg {
    Bool(bool),
    Integer(i64),
    /// The text of a new floating-point value, parsed by the writer.
    Float(String),
    /// Select the entry with this integer code.
    Enumeration(i64),
    Execute,
    String(String),
    Category(CategoryMsg),
}

/// The update messages of a whole tree.
pub enum Msg {
    /// A message for the top-level category at this position.
    Category(usize, CategoryMsg),
}

/// A write that an update asks for, with the handle it goes through.
pub enum Target<N> {
    Boolean(N, bool),
    Integer(N, i64),
    Float(N, String),
    /// The code to select, and whether one of the node's entries carries it.
    Enumeration(N, i64, bool),
    Command(N),
    String(N, String),
}

/// What `node` must give for `msg`: a message of the node's own kind gives
/// the write it asks for; a category passes its message on; any other pair
/// gives nothing.
pub open spec fn node_target<N>(node: Node<N>, msg: NodeMsg) -> Option<Target<N>> {
    match (node, msg) {
        (Node::Boolean(l), NodeMsg::Bool(b)) => Some(Target::Boolean(l.handle, b)),
        (Node::Integer(l), NodeMsg::Integer(v)) => Some(Target::Integer(l.handle, v)),
        (Node::Float(l), NodeMsg::Float(t)) => Some(Target::Float(l.handle, t)),
        (Node::Enumeration(e), NodeMsg::Enumeration(v)) =>
            Some(Target::Enumeration(e.handle, v, has_code(e.entries@, v))),
        (Node::Command(l), NodeMsg::Execute) => Some(Target::Command(l.handle)),
        (Node::String(l), NodeMsg::String(t)) => Some(Target::String(l.handle, t)),
        _ => None,
    }
}

/// `(after, r)` is what a category `before` becomes and gives on `msg`.
pub open spec fn category_step<N>(before: Category<N>, after: Category<N>, msg: CategoryMsg, r: Option<Target<N>>) -> bool
    decreases msg,
{
    &&& after.handle == before.handle
    &&& after.name == before.name
    &&& match msg {
        CategoryMsg::Expand => {
            &&& after.expanded == !before.expanded
            &&& after.features@ == before.features@
            &&& r is None
        },
        CategoryMsg::Node(i, m) => {
            &&& after.expanded == before.expanded
            &&& if i >= before.features@.len() {
                after.features@ == before.features@ && r is None
            } else {
                &&& after.features@.len() == before.features@.len()
                &&& forall|j: int| 0 <= j < before.features@.len() && j != i ==> after.features@[j] == before.features@[j]
                &&& node_step(before.features@[i as int], after.features@[i as int], *m, r)
            }
        },
    }
}

/// `(after, r)` is what a node `before` becomes and gives on `msg`: only a
/// category changes, and only by its own step.
pub open spec fn node_step<N>(before: Node<N>, after: Node<N>, msg: NodeMsg, r: Option<Target<N>>) -> bool
    decreases msg,
{
    match (before, msg) {
        (Node::Category(c), NodeMsg::Category(m)) => match after {
            Node::Category(d) => category_step(c, d, m, r),
            _ => false,
        },
        _ => after == before && r == node_target(before, msg),
    }
}

impl<N: Copy> Node<N> {
    /// Routes a message into this node: a message of the node's own kind
    /// gives the write it asks for; a category handles its message; a
    /// message of another kind is ignored.
    pub fn update(self, msg: NodeMsg) -> (r: (Node<N>, Option<Target<N>>))
        ensures
            node_step(self, r.0, msg, r.1),
        decreases msg,
    {
        match self {
            Node::Category(c) => match msg {
                NodeMsg::Category(m) => {
                    let (d, t) = c.update(m);
                    (Node::Category(d), t)
                },
                _ => (Node::Category(c), None),
            },
            Node::Boolean(l) => match msg {
                NodeMsg::Bool(b) => {
                    let h = l.handle;
                    (Node::Boolean(l), Some(Target::Boolean(h, b)))
                },
                _ => (Node::Boolean(l), None),
            },
            Node::Integer(l) => match msg {
                NodeMsg::Integer(v) => {
                    let h = l.handle;
                    (Node::Integer(l), Some(Target::Integer(h, v)))
                },
                _ => (Node::Integer(l), None),
            },
            Node::Float(l) => match msg {
                NodeMsg::Float(t) => {
                    let h = l.handle;
                    (Node::Float(l), Some(Target::Float(h, t)))
                },
                _ => (Node::Float(l), None),
            },
            Node::Enumeration(e) => match msg {
                NodeMsg::Enumeration(v) => {
                    let h = e.handle;
                    let known = entries_have_code(&e.entries, v);
                    (Node::Enumeration(e), Some(Target::Enumeration(h, v, known)))
                },
                _ => (Node::Enumeration(e), None),
            },
            Node::Command(l) => match msg {
                NodeMsg::Execute => {
                    let h = l.handle;
                    (Node::Command(l), Some(Target::Command(h)))
                },
                _ => (Node::Command(l), None),
            },
            Node::String(l) => match msg {
                NodeMsg::String(t) => {
                    let h = l.handle;
                    (Node::String(l), Some(Target::String(h, t)))
                },
                _ => (Node::String(l), None),
            },
        }
    }
}

impl<N: Copy> Category<N> {
    /// Handles a message: `Expand` toggles the presentation flag, without
    /// touching the device; a message for a feature is routed to it, and one
    /// for a position past the last feature is ignored.
    pub fn update(self, msg: CategoryMsg) -> (r: (Category<N>, Option<Target<N>>))
        ensures
            category_step(self, r.0, msg, r.1),
        decreases msg,
    {
        let mut c = self;
        match msg {
            CategoryMsg::Expand => {
                c.expanded = !c.expanded;
                (c, None)
            },
            CategoryMsg::Node(i, m) => {
                if i >= c.features.len() {
                    return (c, None);
                }
                let ghost before = c.features@;
                let node = c.features.remove(i);
                let (node, t) = node.update(*m);
                c.features.insert(i, node);
                proof {
                    assert forall|j: int| 0 <= j < before.len() && j != i implies c.features@[j] == before[j] by {}
                }
                (c, t)
            },
        }
    }
}

/// Whether some entry carries code `v`.
fn entries_have_code(entries: &Vec<Entry>, v: i64) -> (r: bool)
    ensures
        r == has_code(entries@, v),
{
    let mut i: usize = 0;
    while i < entries.len()
        invariant
            i <= entries@.len(),
            forall|j: int| 0 <= j < i ==> entries@[j].code() != v,
        decreases entries@.len() - i,
    {
        if entries[i].value() == v {
            return true;
        }
        i = i + 1;
    }
    false
}

/// What a write decision gives: nothing to do when the node is not writable;
/// `RangeError` for an enumeration code that no entry carries; otherwise the
/// write itself.
pub open spec fn resolved<N>(t: Target<N>, writable: bool) -> Result<Option<Target<N>>, Error> {
    if !writable {
        Ok(None)
    } else {
        match t {
            Target::Enumeration(_, v, false) => Err(Error::RangeError(Rejected::Code(v))),
            _ => Ok(Some(t)),
        }
    }
}

impl<N> Target<N> {
    /// Decides a write once the node's current writability is known. A write
    /// to a node that is not writable is a no-op and succeeds: writability
    /// may change between showing a control and applying its update. An
    /// enumeration is written by integer code only, and a code that none of
    /// its entries carries is a `RangeError`.
    pub fn resolve(self, writable: bool) -> (r: Result<Option<Target<N>>, Error>)
        ensures
            r == resolved(self, writable),
    {
        if !writable {
            return Ok(None);
        }
        match self {
            Target::Enumeration(h, v, known) => if known {
                Ok(Some(Target::Enumeration(h, v, known)))
            } else {
                Err(Error::RangeError(Rejected::Code(v)))
            },
            t => Ok(Some(t)),
        }
    }
}

/// Updating an enumeration with a code that none of its entries carries ends
/// in a `RangeError` when the node is writable and in a successful no-op when
/// it is not; a write to any node that is not writable is a successful no-op.
pub proof fn lemma_unknown_code_and_read_only<N>(e: Enumeration<N>, v: i64, t: Target<N>)
    requires
        !has_code(e.entries@, v),
    ensures
        ({
            let target = node_target(Node::Enumeration(e), NodeMsg::Enumeration(v)).unwrap();
            &&& resolved(target, true) == Err::<Option<Target<N>>, Error>(Error::RangeError(Rejected::Code(v)))
            &&& resolved(target, false) == Ok::<Option<Target<N>>, Error>(None)
        }),
        resolved(t, false) == Ok::<Option<Target<N>>, Error>(None),
{
}

/// The tree of a device: its top-level categories, in description order.
pub struct GenApi<N> {
    categories: Vec<Category<N>>,
}

impl<N> GenApi<N> {
    /// The top-level categories.
    pub closed spec fn tops(&self) -> Seq<Category<N>> {
        self.categories@
    }

    /// The top-level categories.
    pub fn categories(&self) -> (r: &Vec<Category<N>>)
        ensures
            r@ == self.tops(),
    {
        &self.categories
    }

    /// Builds the tree from the description of the root feature: each child
    /// of the root that implements the category interface becomes a
    /// top-level category. A missing root, or a root that is no category, is
    /// an `InternalError`: the description is malformed.
    pub fn new(root: Option<Feature<N>>) -> (r: Result<GenApi<N>, Error>)
        ensures
            match root {
                None => r matches Err(Error::InternalError(_)),
                Some(f) => if !f.interfaces.category {
                    r matches Err(Error::InternalError(_))
                } else {
                    match r {
                        Ok(g) => {
                            &&& g.tops().len() == top_categories(f.children@).len()
                            &&& forall|i: int| 0 <= i < g.tops().len() ==>
                                category_built_from(#[trigger] top_categories(f.children@)[i], g.tops()[i])
                        },
                        Err(_) => false,
                    }
                },
            },
    {
        let f = match root {
            None => return Err(Error::InternalError(String::from_str("`Root` node must exist"))),
            Some(f) => f,
        };
        if !f.interfaces.category {
            return Err(Error::InternalError(String::from_str("`Root` node must implement `ICategory`")));
        }
        let ghost all = f.children@;
        let mut children = f.children;
        let mut categories: Vec<Category<N>> = Vec::new();
        let ghost mut done: int = 0;
        while children.len() > 0
            invariant
                0 <= done <= all.len(),
                children@ == all.subrange(done, all.len() as int),
                categories@.len() == top_categories(all.subrange(0, done)).len(),
                forall|i: int| 0 <= i < categories@.len() ==>
                    category_built_from(#[trigger] top_categories(all.subrange(0, done))[i], categories@[i]),
            decreases children@.len(),
        {
            let child = children.remove(0);
            assert(all.subrange(0, done + 1).drop_last() =~= all.subrange(0, done));
            assert(all.subrange(0, done + 1).last() == child);
            if child.interfaces.category {
                categories.push(Category::new(child));
            }
            proof {
                done = done + 1;
                assert(children@ =~= all.subrange(done, all.len() as int));
            }
        }
        assert(all.subrange(0, done) =~= all);
        Ok(GenApi { categories })
    }
}

impl<N: Copy> GenApi<N> {
    /// Routes a message to its top-level category; a position past the last
    /// category is ignored.
    pub fn update(&mut self, msg: Msg) -> (r: Option<Target<N>>)
        ensures
            match msg {
                Msg::Category(i, m) => if i >= old(self).tops().len() {
                    final(self).tops() == old(self).tops() && r is None
                } else {
                    &&& final(self).tops().len() == old(self).tops().len()
                    &&& forall|j: int| 0 <= j < old(self).tops().len() && j != i ==> final(self).tops()[j] == old(self).tops()[j]
                    &&& category_step(old(self).tops()[i as int], final(self).tops()[i as int], m, r)
                },
            },
    {
        match msg {
            Msg::Category(i, m) => {
                if i >= self.categories.len() {
                    return None;
                }
                let ghost before = self.categories@;
                let c = self.categories.remove(i);
                let (c, t) = c.update(m);
                self.categories.insert(i, c);
                proof {
                    assert forall|j: int| 0 <= j < before.len() && j != i implies self.categories@[j] == before[j] by {}
                }
                t
            },
        }
    }
}

/// The children of the root that become top-level categories, in order.
pub open spec fn top_categories<N>(fs: Seq<Feature<N>>) -> Seq<Feature<N>>
    decreases fs.len(),
{
    if fs.len() == 0 {
        Seq::empty()
    } else {
        let r = top_categories(fs.drop_last());
        if fs.last().interfaces.category {
            r.push(fs.last())
        } else {
            r
        }
    }
}

/// How a node is shown.
#[derive(Clone, Copy, Debug, PartialEq, Eq, Structural)]
pub enum Presentation {
    /// A control that accepts a new value, or runs the command.
    Editable,
    /// The current value, as text.
    ReadOnly,
    /// A placeholder: the value cannot be read now.
    NotAvailable,
}

/// How a node of kind `kind` is shown, given whether it is readable and
/// writable now. Both are asked of the device on every showing, since either
/// may depend on the values of other features.
pub open spec fn presentation_of(kind: Kind, readable: bool, writable: bool) -> Presentation {
    match kind {
        Kind::Category => Presentation::Editable,
        Kind::Command => if writable { Presentation::Editable } else { Presentation::NotAvailable },
        _ => if !readable {
            Presentation::NotAvailable
        } else if writable {
            Presentation::Editable
        } else {
            Presentation::ReadOnly
        },
    }
}

/// Decides how a node is shown: a command can be run while writable; a
/// category can always be expanded; any other node shows a placeholder when
/// unreadable, an editor when also writable, and its value otherwise.
pub fn presentation(kind: Kind, readable: bool, writable: bool) -> (r: Presentation)
    ensures
        r == presentation_of(kind, readable, writable),
{
    match kind {
        Kind::Category => Presentation::Editable,
        Kind::Command => if writable {
            Presentation::Editable
        } else {
            Presentation::NotAvailable
        },
        _ => if !readable {
            Presentation::NotAvailable
        } else if writable {
            Presentation::Editable
        } else {
            Presentation::ReadOnly
        },
    }
}

} // verus!
