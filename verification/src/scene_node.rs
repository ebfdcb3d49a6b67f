//! A scene node: identity, name, parent id, ordered child ids and a local
//! transform. Nodes live in a [`SceneArena`](crate::scene_arena::SceneArena)
//! and refer to each other by id alone; a stored id may go stale when the
//! node it names is removed, and readers tolerate that.

use vstd::prelude::*;

use crate::math::{identity_quat, one_vec3, zero_vec3};
use crate::scene_arena::SceneArena;
use crate::transform::Transform;

verus! {

/// No id occurs twice in a child list.
pub open spec fn no_dup_children(children: Seq<u64>) -> bool {
    forall|i: int, j: int| 0 <= i < j < children.len() ==> children[i] != children[j]
}

/// Every id in a child list lies below the arena's id bound.
pub open spec fn children_bounded(children: Seq<u64>, bound: u64) -> bool {
    forall|i: int| 0 <= i < children.len() ==> children[i] < bound
}

/// A stored parent id lies below the arena's id bound.
pub open spec fn parent_bounded(parent: Option<u64>, bound: u64) -> bool {
    parent matches Some(p) ==> p < bound
}

/// What adding a child id leaves in a child list: the id is appended when the
/// arena holds it and the list does not yet, and nothing changes otherwise.
pub open spec fn spec_child_add(children: Seq<u64>, child_in_arena: bool, child_id: u64) -> Seq<
    u64,
> {
    if child_in_arena && !children.contains(child_id) {
        children.push(child_id)
    } else {
        children
    }
}

/// What removing a child id leaves in a child list: the first occurrence is
/// taken out when present, and nothing changes otherwise.
pub open spec fn spec_child_remove(children: Seq<u64>, child_id: u64) -> Seq<u64> {
    if children.contains(child_id) {
        children.remove(children.index_of(child_id))
    } else {
        children
    }
}

/// How many entries of a child list equal the given id.
pub open spec fn count_of(children: Seq<u64>, child_id: u64) -> int
    decreases children.len(),
{
    if children.len() == 0 {
        0
    } else {
        (if children.last() == child_id {
            1int
        } else {
            0int
        }) + count_of(children.drop_last(), child_id)
    }
}

/// The number of leading child ids the arena still holds: the walk stops at
/// the first stale id, whatever follows it.
pub open spec fn live_prefix_len(children: Seq<u64>, live: Map<u64, SceneNode>) -> int
    decreases children.len(),
{
    if children.len() == 0 {
        0
    } else if !live.contains_key(children[0]) {
        0
    } else {
        1 + live_prefix_len(children.drop_first(), live)
    }
}

/// The name a node gets at creation: the given one, or "unnamed".
pub open spec fn spec_name_of(name: Option<&str>) -> Seq<char> {
    match name {
        Some(s) => s@,
        None => "unnamed"@,
    }
}

/// A node of the scene graph.
#[derive(Debug)]
pub struct SceneNode {
    transform: Transform,
    parent: Option<u64>,
    children: Vec<u64>,
    id: u64,
    name: String,
}

impl SceneNode {
    /// The node's id within its arena.
    pub closed spec fn spec_id(self) -> u64 {
        self.id
    }

    /// The node's name.
    pub closed spec fn spec_name(self) -> Seq<char> {
        self.name@
    }

    /// The stored parent id, if any.
    pub closed spec fn spec_parent(self) -> Option<u64> {
        self.parent
    }

    /// The ordered child ids.
    pub closed spec fn spec_children(self) -> Seq<u64> {
        self.children@
    }

    /// The node's local transform.
    pub closed spec fn spec_transform(self) -> Transform {
        self.transform
    }

    /// The node's invariant: its child list holds no id twice, and its cached
    /// transform matrix is consistent.
    pub open spec fn wf(self) -> bool {
        &&& no_dup_children(self.spec_children())
        &&& self.spec_transform().wf()
    }

    /// Allocate a node through the arena: the arena assigns the next id, and
    /// when a parent id is given, the new id is appended to that parent's
    /// child list. A given parent id must name a live node.
    pub fn create_new(arena: &mut SceneArena, name: Option<&str>, parent: Option<u64>) -> (r: u64)
        requires
            old(arena).wf(),
            old(arena).spec_next_id() < u64::MAX,
            parent matches Some(p) ==> old(arena)@.contains_key(p),
        ensures
            final(arena).wf(),
            r == old(arena).spec_next_id(),
            final(arena).spec_next_id() == r + 1,
            !old(arena)@.contains_key(r),
            final(arena)@.contains_key(r),
            final(arena)@.len() == old(arena)@.len() + 1,
            final(arena)@[r].spec_id() == r,
            final(arena)@[r].spec_name() == spec_name_of(name),
            final(arena)@[r].spec_parent() == parent,
            final(arena)@[r].spec_children() == Seq::<u64>::empty(),
            final(arena)@[r].spec_transform().spec_position() == zero_vec3(),
            final(arena)@[r].spec_transform().spec_rotation() == identity_quat(),
            final(arena)@[r].spec_transform().spec_scale() == one_vec3(),
            forall|k: u64| k != r ==> (final(arena)@.contains_key(k) <==> old(
                arena,
            )@.contains_key(k)),
            parent matches Some(p) ==> {
                &&& final(arena)@[p].spec_children() == old(arena)@[p].spec_children().push(r)
                &&& final(arena)@[p].spec_id() == old(arena)@[p].spec_id()
                &&& final(arena)@[p].spec_name() == old(arena)@[p].spec_name()
                &&& final(arena)@[p].spec_parent() == old(arena)@[p].spec_parent()
                &&& final(arena)@[p].spec_transform() == old(arena)@[p].spec_transform()
            },
            forall|k: u64|
                k != r && parent != Some(k) && old(arena)@.contains_key(k) ==> final(arena)@[k]
                    == old(arena)@[k],
    {
        let node_name: String = match name {
            Some(s) => s.to_owned(),
            None => "unnamed".to_owned(),
        };
        let node = SceneNode {
            transform: Transform::default(),
            parent,
            children: Vec::new(),
            id: 0,
            name: node_name,
        };
        proof {
            match parent {
                Some(p) => {
                    assert(old(arena).node_ok(p));
                },
                None => (),
            }
        }
        let new_node_id = arena.add_node(node);
        match parent {
            Some(parent_id) => {
                proof {
                    assert(old(arena).node_ok(parent_id));
                    let cs = arena@[parent_id].spec_children();
                    if cs.contains(new_node_id) {
                        let w = choose|w: int| 0 <= w < cs.len() && cs[w] == new_node_id;
                        assert(cs[w] < new_node_id);
                    }
                }
                arena.add_child_id(parent_id, new_node_id);
            },
            None => (),
        }
        new_node_id
    }

    pub(crate) fn set_id(&mut self, id: u64)
        ensures
            final(self).spec_id() == id,
            final(self).spec_name() == old(self).spec_name(),
            final(self).spec_parent() == old(self).spec_parent(),
            final(self).spec_children() == old(self).spec_children(),
            final(self).spec_transform() == old(self).spec_transform(),
    {
        self.id = id;
    }

    pub(crate) fn set_parent(&mut self, parent_id: u64)
        ensures
            final(self).spec_parent() == Some(parent_id),
            final(self).spec_id() == old(self).spec_id(),
            final(self).spec_name() == old(self).spec_name(),
            final(self).spec_children() == old(self).spec_children(),
            final(self).spec_transform() == old(self).spec_transform(),
    {
        self.parent = Some(parent_id);
    }

    /// The node's local transform, open to mutation.
    pub fn get_transform(&mut self) -> (r: &mut Transform)
        ensures
            *r == old(self).spec_transform(),
            final(self).spec_transform() == *final(r),
            final(self).spec_id() == old(self).spec_id(),
            final(self).spec_name() == old(self).spec_name(),
            final(self).spec_parent() == old(self).spec_parent(),
            final(self).spec_children() == old(self).spec_children(),
    {
        &mut self.transform
    }

    /// The node's id.
    pub fn get_id(&self) -> (r: u64)
        ensures
            r == self.spec_id(),
    {
        self.id
    }

    /// The node's name.
    pub fn get_name(&self) -> (r: &str)
        ensures
            r@ == self.spec_name(),
    {
        self.name.as_str()
    }

    /// The index of the first occurrence of an id in the child list.
    fn child_position(&self, node_id: u64) -> (r: Option<usize>)
        ensures
            match r {
                Some(i) => {
                    &&& i < self.spec_children().len()
                    &&& self.spec_children()[i as int] == node_id
                    &&& forall|j: int| 0 <= j < i ==> self.spec_children()[j] != node_id
                },
                None => !self.spec_children().contains(node_id),
            },
    {
        let mut i: usize = 0;
        let n = self.children.len();
        while i < n
            invariant
                i <= n,
                n == self.spec_children().len(),
                forall|j: int| 0 <= j < i ==> self.spec_children()[j] != node_id,
            decreases n - i,
        {
            if self.children[i] == node_id {
                return Some(i);
            }
            i = i + 1;
        }
        None
    }

    /// Append a child id that the arena was seen to hold, unless the list
    /// already holds it.
    pub(crate) fn push_child_if_absent(&mut self, child_id: u64)
        requires
            old(self).wf(),
        ensures
            final(self).wf(),
            final(self).spec_children() == spec_child_add(
                old(self).spec_children(),
                true,
                child_id,
            ),
            final(self).spec_id() == old(self).spec_id(),
            final(self).spec_name() == old(self).spec_name(),
            final(self).spec_parent() == old(self).spec_parent(),
            final(self).spec_transform() == old(self).spec_transform(),
    {
        match self.child_position(child_id) {
            None => {
                self.children.push(child_id);
            },
            Some(_) => (),
        }
    }

    /// Remove an id from this node's child list if present; the removed
    /// child's own parent field is left as it was.
    pub fn remove_child(&mut self, node_id: u64)
        requires
            old(self).wf(),
        ensures
            final(self).wf(),
            final(self).spec_children() == spec_child_remove(old(self).spec_children(), node_id),
            final(self).spec_id() == old(self).spec_id(),
            final(self).spec_name() == old(self).spec_name(),
            final(self).spec_parent() == old(self).spec_parent(),
            final(self).spec_transform() == old(self).spec_transform(),
    {
        let position = self.child_position(node_id);
        match position {
            None => (),
            Some(index) => {
                proof {
                    let cs = old(self).spec_children();
                    assert(cs.contains(node_id));
                    let w = cs.index_of(node_id);
                    assert(0 <= w < cs.len() && cs[w] == node_id);
                    assert(w == index as int);
                }
                self.children.remove(index);
                proof {
                    lemma_remove_keeps_no_dups(old(self).spec_children(), index as int);
                }
            },
        }
    }

    /// The number of stored child ids, live or stale.
    pub fn get_child_count(&self) -> (r: usize)
        ensures
            r == self.spec_children().len(),
    {
        self.children.len()
    }

    /// Resolve the child id at the given position through the arena; nothing
    /// comes back when that id has gone stale.
    pub fn get_child<'a>(&self, arena: &'a SceneArena, index: usize) -> (r: Option<&'a SceneNode>)
        requires
            index < self.spec_children().len(),
        ensures
            match r {
                Some(n) => arena@.contains_key(self.spec_children()[index as int]) && *n
                    == arena@[self.spec_children()[index as int]],
                None => !arena@.contains_key(self.spec_children()[index as int]),
            },
    {
        arena.get_node(self.children[index])
    }

    /// The longest prefix of the child list whose ids the arena still holds,
    /// in order. The walk stops at the first stale id and silently drops it
    /// and everything after it, even ids that are still live.
    pub fn get_children_ids(&self, arena: &SceneArena) -> (r: Vec<u64>)
        ensures
            r@ == self.spec_children().take(live_prefix_len(self.spec_children(), arena@)),
    {
        let ghost cs = self.spec_children();
        let mut out: Vec<u64> = Vec::new();
        let mut i: usize = 0;
        let n = self.children.len();
        while i < n && arena.has_node(self.children[i])
            invariant
                i <= n,
                n == cs.len(),
                cs == self.spec_children(),
                out@ == cs.take(i as int),
                forall|j: int| 0 <= j < i ==> arena@.contains_key(cs[j]),
            decreases n - i,
        {
            out.push(self.children[i]);
            proof {
                assert(out@ =~= cs.take(i + 1));
            }
            i = i + 1;
        }
        proof {
            lemma_live_prefix_len_from_walk(cs, arena@, i as int);
        }
        out
    }

    /// The nodes of the live prefix of the child list, copied out in order;
    /// the same truncation at the first stale id as `get_children_ids`.
    pub fn get_children(&self, arena: &SceneArena) -> (r: Vec<SceneNode>)
        ensures
            r@.len() == live_prefix_len(self.spec_children(), arena@),
            forall|j: int|
                0 <= j < r@.len() ==> arena@.contains_key(self.spec_children()[j])
                    && same_node(#[trigger] r@[j], arena@[self.spec_children()[j]]),
    {
        let ghost cs = self.spec_children();
        let mut out: Vec<SceneNode> = Vec::new();
        let mut i: usize = 0;
        let n = self.children.len();
        while i < n && arena.has_node(self.children[i])
            invariant
                i <= n,
                n == cs.len(),
                cs == self.spec_children(),
                out@.len() == i,
                forall|j: int| 0 <= j < i ==> arena@.contains_key(cs[j]),
                forall|j: int|
                    0 <= j < i ==> same_node(#[trigger] out@[j], arena@[cs[j]]),
            decreases n - i,
        {
            let node = arena.get_node(self.children[i]).unwrap();
            out.push(node.clone());
            i = i + 1;
        }
        proof {
            lemma_live_prefix_len_from_walk(cs, arena@, i as int);
        }
        out
    }

    /// Resolve the stored parent id through the arena; nothing comes back
    /// when no parent is stored or the id has gone stale.
    pub fn get_parent<'a>(&self, arena: &'a SceneArena) -> (r: Option<&'a SceneNode>)
        ensures
            match r {
                Some(n) => {
                    &&& self.spec_parent() matches Some(p)
                    &&& arena@.contains_key(self.spec_parent().unwrap())
                    &&& *n == arena@[self.spec_parent().unwrap()]
                },
                None => match self.spec_parent() {
                    Some(p) => !arena@.contains_key(p),
                    None => true,
                },
            },
    {
        match self.parent {
            None => None,
            Some(parent_id) => arena.get_node(parent_id),
        }
    }

    /// The stored parent id, resolved or not.
    pub fn get_parent_id(&self) -> (r: Option<u64>)
        ensures
            r == self.spec_parent(),
    {
        self.parent
    }
}

impl Clone for SceneNode {
    /// A deep copy: same id, name, parent, child list and transform.
    fn clone(&self) -> (r: Self)
        ensures
            same_node(r, *self),
    {
        let mut children_copy: Vec<u64> = Vec::new();
        let mut i: usize = 0;
        let n = self.children.len();
        while i < n
            invariant
                i <= n,
                n == self.spec_children().len(),
                children_copy@ == self.spec_children().take(i as int),
            decreases n - i,
        {
            children_copy.push(self.children[i]);
            proof {
                assert(children_copy@ =~= self.spec_children().take(i + 1));
            }
            i = i + 1;
        }
        proof {
            assert(children_copy@ =~= self.spec_children());
        }
        SceneNode {
            transform: self.transform,
            parent: self.parent,
            children: children_copy,
            id: self.id,
            name: self.name.clone(),
        }
    }
}

/// Two nodes that agree on id, name, parent, child list and transform.
pub open spec fn same_node(a: SceneNode, b: SceneNode) -> bool {
    &&& a.spec_id() == b.spec_id()
    &&& a.spec_name() == b.spec_name()
    &&& a.spec_parent() == b.spec_parent()
    &&& a.spec_children() == b.spec_children()
    &&& a.spec_transform() == b.spec_transform()
}

/// Removing one entry keeps a duplicate-free child list duplicate-free.
proof fn lemma_remove_keeps_no_dups(children: Seq<u64>, at: int)
    requires
        no_dup_children(children),
        0 <= at < children.len(),
    ensures
        no_dup_children(children.remove(at)),
{
    let r = children.remove(at);
    assert forall|i: int, j: int| 0 <= i < j < r.len() implies r[i] != r[j] by {
        if i < at {
            if j < at {
                assert(children[i] != children[j]);
            } else {
                assert(children[i] != children[j + 1]);
            }
        } else {
            assert(children[i + 1] != children[j + 1]);
        }
    }
}

/// A walk that saw `i` live ids and then the end of the list or a stale id
/// has found the live prefix.
proof fn lemma_live_prefix_len_from_walk(children: Seq<u64>, live: Map<u64, SceneNode>, i: int)
    requires
        0 <= i <= children.len(),
        forall|j: int| 0 <= j < i ==> live.contains_key(children[j]),
        i < children.len() ==> !live.contains_key(children[i]),
    ensures
        live_prefix_len(children, live) == i,
    decreases children.len(),
{
    if children.len() == 0 {
    } else if i == 0 {
    } else {
        let rest = children.drop_first();
        assert forall|j: int| 0 <= j < i - 1 implies live.contains_key(rest[j]) by {
            assert(rest[j] == children[j + 1]);
        }
        if i - 1 < rest.len() {
            assert(rest[i - 1] == children[i]);
        }
        lemma_live_prefix_len_from_walk(rest, live, i - 1);
    }
}

/// A duplicate-free child list that holds an id holds it exactly once.
proof fn lemma_no_dups_count_one(children: Seq<u64>, child_id: u64)
    requires
        no_dup_children(children),
        children.contains(child_id),
    ensures
        count_of(children, child_id) == 1,
    decreases children.len(),
{
    let prefix = children.drop_last();
    if children.last() == child_id {
        assert(!prefix.contains(child_id)) by {
            if prefix.contains(child_id) {
                let w = choose|w: int| 0 <= w < prefix.len() && prefix[w] == child_id;
                assert(children[w] == children[children.len() - 1]);
            }
        }
        lemma_absent_count_zero(prefix, child_id);
    } else {
        assert(prefix.contains(child_id)) by {
            let w = choose|w: int| 0 <= w < children.len() && children[w] == child_id;
            assert(prefix[w] == child_id);
        }
        assert(no_dup_children(prefix)) by {
            assert forall|i: int, j: int| 0 <= i < j < prefix.len() implies prefix[i] != prefix[j] by {
                assert(children[i] != children[j]);
            }
        }
        lemma_no_dups_count_one(prefix, child_id);
    }
}

/// A child list without an id holds it zero times.
proof fn lemma_absent_count_zero(children: Seq<u64>, child_id: u64)
    requires
        !children.contains(child_id),
    ensures
        count_of(children, child_id) == 0,
    decreases children.len(),
{
    if children.len() > 0 {
        let prefix = children.drop_last();
        assert(!prefix.contains(child_id)) by {
            if prefix.contains(child_id) {
                let w = choose|w: int| 0 <= w < prefix.len() && prefix[w] == child_id;
                assert(children[w] == child_id);
            }
        }
        lemma_absent_count_zero(prefix, child_id);
    }
}

/// Adding the same child id twice to a duplicate-free child list, with the id
/// resolvable in the arena both times, leaves the list holding that id
/// exactly once.
pub proof fn lemma_add_child_id_twice(children: Seq<u64>, child_id: u64)
    requires
        no_dup_children(children),
    ensures
        count_of(
            spec_child_add(spec_child_add(children, true, child_id), true, child_id),
            child_id,
        ) == 1,
{
    let once = spec_child_add(children, true, child_id);
    let twice = spec_child_add(once, true, child_id);
    if children.contains(child_id) {
        assert(once == children);
        assert(twice == children);
        lemma_no_dups_count_one(children, child_id);
    } else {
        assert(once == children.push(child_id));
        assert(once.contains(child_id)) by {
            assert(once[children.len() as int] == child_id);
        }
        assert(twice == once);
        assert(no_dup_children(once)) by {
            assert forall|i: int, j: int| 0 <= i < j < once.len() implies once[i] != once[j] by {
                if j == once.len() - 1 {
                    assert(once[i] == children[i]);
                    if children[i] == child_id {
                        assert(children.contains(child_id));
                    }
                } else {
                    assert(children[i] != children[j]);
                }
            }
        }
        lemma_no_dups_count_one(once, child_id);
    }
}

} // verus!
