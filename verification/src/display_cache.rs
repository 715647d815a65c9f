//! Displays that are shared between renderers on the same DRM node.

use vstd::prelude::*;

verus! {

/// A type of node
#[derive(Debug, Clone, Copy, PartialEq, Eq, Structural)]
pub enum NodeType {
    /// A primary node may be used to allocate buffers.
    Primary,
    /// A control node may be used for mode-setting.
    Control,
    /// A render node may be used by a client to allocate buffers.
    Render,
}

/// A node which refers to a DRM device.
#[derive(Debug, Clone, Copy, PartialEq, Eq, Structural)]
pub struct DrmNode {
    pub dev: u64,
    pub ty: NodeType,
}

/// Whether two optional nodes are the same.
pub fn same_node(a: &Option<DrmNode>, b: &Option<DrmNode>) -> (same: bool)
    ensures
        same == (*a == *b),
{
    match (a, b) {
        (Some(x), Some(y)) => *x == *y,
        (None, None) => true,
        _ => false,
    }
}

/// The displays known so far, each under the node that it was set up for. The
/// software display stands under no node.
pub struct DisplayCache<W> {
    entries: Vec<(Option<DrmNode>, W)>,
}

spec fn holds<W>(entries: Seq<(Option<DrmNode>, W)>, node: Option<DrmNode>) -> bool {
    exists|i: int| 0 <= i < entries.len() && (#[trigger] entries[i]).0 == node
}

spec fn position<W>(entries: Seq<(Option<DrmNode>, W)>, node: Option<DrmNode>) -> int {
    choose|i: int| 0 <= i < entries.len() && (#[trigger] entries[i]).0 == node
}

spec fn keys_differ<W>(entries: Seq<(Option<DrmNode>, W)>) -> bool {
    forall|i: int, j: int|
        0 <= i < j < entries.len() ==> (#[trigger] entries[i]).0 != (#[trigger] entries[j]).0
}

spec fn as_map<W>(entries: Seq<(Option<DrmNode>, W)>) -> Map<Option<DrmNode>, W> {
    Map::new(
        |node: Option<DrmNode>| holds(entries, node),
        |node: Option<DrmNode>| entries[position(entries, node)].1,
    )
}

impl<W> View for DisplayCache<W> {
    type V = Map<Option<DrmNode>, W>;

    closed spec fn view(&self) -> Map<Option<DrmNode>, W> {
        as_map(self.entries@)
    }
}

fn find<W>(entries: &Vec<(Option<DrmNode>, W)>, node: &Option<DrmNode>) -> (found: Option<usize>)
    ensures
        match found {
            Some(i) => i < entries@.len() && entries@[i as int].0 == *node,
            None => !holds(entries@, *node),
        },
{
    let mut i: usize = 0;
    while i < entries.len()
        invariant
            i <= entries@.len(),
            forall|j: int| 0 <= j < i ==> (#[trigger] entries@[j]).0 != *node,
        decreases entries@.len() - i,
    {
        if same_node(&entries[i].0, node) {
            return Some(i);
        }
        i += 1;
    }
    None
}

proof fn lemma_position<W>(entries: Seq<(Option<DrmNode>, W)>, i: int)
    requires
        keys_differ(entries),
        0 <= i < entries.len(),
    ensures
        holds(entries, entries[i].0),
        position(entries, entries[i].0) == i,
{
    let p = position(entries, entries[i].0);
    assert(entries[i].0 == entries[i].0);
    assert(0 <= p < entries.len() && entries[p].0 == entries[i].0);
}

/// Writing a pair over the entry of its node, or behind the last entry where the
/// node has none, stores the display under the node.
proof fn lemma_stored<W>(
    before: Seq<(Option<DrmNode>, W)>,
    after: Seq<(Option<DrmNode>, W)>,
    i: int,
    node: Option<DrmNode>,
    display: W,
)
    requires
        keys_differ(before),
        0 <= i < after.len(),
        i < before.len() ==> after.len() == before.len() && before[i].0 == node,
        i >= before.len() ==> after.len() == before.len() + 1 && !holds(before, node),
        after[i] == (node, display),
        forall|j: int| 0 <= j < before.len() && j != i ==> #[trigger] after[j] == before[j],
    ensures
        keys_differ(after),
        as_map(after) == as_map(before).insert(node, display),
{
    assert forall|j: int| 0 <= j < before.len() && j != i implies (#[trigger] before[j]).0
        != node by {
        if before[j].0 == node {
            assert(holds(before, node));
        }
    }
    assert(keys_differ(after));
    assert forall|k: Option<DrmNode>| holds(after, k) == (holds(before, k) || k == node) by {
        if holds(before, k) && k != node {
            assert(after[position(before, k)].0 == k);
        }
        if holds(after, k) && k != node {
            assert(before[position(after, k)].0 == k);
        }
        assert(after[i].0 == node);
    }
    assert forall|k: Option<DrmNode>| holds(before, k) && k != node implies as_map(after)[k]
        == as_map(before)[k] by {
        lemma_position(after, position(before, k));
    }
    lemma_position(after, i);
    assert(as_map(after) =~= as_map(before).insert(node, display));
}

impl<W> DisplayCache<W> {
    #[verifier::type_invariant]
    spec fn one_display_per_node(self) -> bool {
        keys_differ(self.entries@)
    }

    /// A cache without displays.
    pub fn new() -> (cache: Self)
        ensures
            cache@ == Map::<Option<DrmNode>, W>::empty(),
    {
        let cache = DisplayCache { entries: Vec::new() };
        assert(cache@ =~= Map::<Option<DrmNode>, W>::empty());
        cache
    }

    /// The display that was stored last under a node.
    pub fn get(&self, node: &Option<DrmNode>) -> (display: Option<&W>)
        ensures
            match display {
                Some(w) => self@.dom().contains(*node) && *w == self@[*node],
                None => !self@.dom().contains(*node),
            },
    {
        proof {
            use_type_invariant(self);
        }
        match find(&self.entries, node) {
            Some(i) => {
                proof {
                    lemma_position(self.entries@, i as int);
                }
                Some(&self.entries[i].1)
            },
            None => None,
        }
    }

    /// Stores a display under a node, in place of any that stood there.
    pub fn insert(&mut self, node: Option<DrmNode>, display: W)
        ensures
            final(self)@ == old(self)@.insert(node, display),
    {
        proof {
            use_type_invariant(&*self);
        }
        let ghost before = self.entries@;
        let mut entries: Vec<(Option<DrmNode>, W)> = Vec::new();
        std::mem::swap(&mut entries, &mut self.entries);
        match find(&entries, &node) {
            Some(i) => {
                entries[i] = (node, display);
                proof {
                    lemma_stored(before, entries@, i as int, node, display);
                }
            },
            None => {
                entries.push((node, display));
                proof {
                    lemma_stored(before, entries@, before.len() as int, node, display);
                }
            },
        }
        self.entries = entries;
    }
}

/// A stored display is found again under its node, until another one is stored
/// there, and leaves the displays of all other nodes as they were.
pub proof fn law_stored_display_is_found<W>(
    cache: Map<Option<DrmNode>, W>,
    node: Option<DrmNode>,
    display: W,
    later: W,
    other: Option<DrmNode>,
)
    requires
        other != node,
    ensures
        cache.insert(node, display).dom().contains(node),
        cache.insert(node, display)[node] == display,
        cache.insert(node, display).insert(node, later) == cache.insert(node, later),
        cache.insert(node, display).dom().contains(other) == cache.dom().contains(other),
        cache.dom().contains(other) ==> cache.insert(node, display)[other] == cache[other],
{
    assert(cache.insert(node, display).insert(node, later) =~= cache.insert(node, later));
}

} // verus!
