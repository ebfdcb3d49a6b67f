//! The arena that owns every scene node: an id-indexed store with a
//! monotonic id counter. An id handed out once is never reused, even after
//! the node it named is removed.

use std::collections::HashMap;
use vstd::prelude::*;

use crate::scene_node::{
    children_bounded, parent_bounded, spec_child_add, spec_child_remove, SceneNode,
};

verus! {

broadcast use vstd::std_specs::hash::group_hash_axioms;

/// The id-indexed store of scene nodes.
pub struct SceneArena {
    members: HashMap<u64, SceneNode>,
    cur_id: u64,
}

impl View for SceneArena {
    type V = Map<u64, SceneNode>;

    closed spec fn view(&self) -> Map<u64, SceneNode> {
        self.members@
    }
}

impl SceneArena {
    /// The id the next added node will receive.
    pub closed spec fn spec_next_id(&self) -> u64 {
        self.cur_id
    }

    /// What the arena guarantees of one stored node: it knows its own id,
    /// the id lies below the counter, the node itself is well formed, and
    /// every id it refers to was once handed out by this arena.
    pub open spec fn node_ok(&self, k: u64) -> bool {
        &&& self@[k].spec_id() == k
        &&& k < self.spec_next_id()
        &&& self@[k].wf()
        &&& children_bounded(self@[k].spec_children(), self.spec_next_id())
        &&& parent_bounded(self@[k].spec_parent(), self.spec_next_id())
    }

    /// The arena's invariant.
    pub open spec fn wf(&self) -> bool {
        forall|k: u64| self@.contains_key(k) ==> #[trigger] self.node_ok(k)
    }

    /// An empty arena whose first id will be zero.
    pub fn new() -> (r: SceneArena)
        ensures
            r.wf(),
            r@ == Map::<u64, SceneNode>::empty(),
            r.spec_next_id() == 0,
    {
        SceneArena { members: HashMap::new(), cur_id: 0 }
    }

    /// Store a node: the next id is assigned, written into the node, and
    /// returned; the counter moves up and never back.
    pub fn add_node(&mut self, node: SceneNode) -> (r: u64)
        requires
            old(self).wf(),
            node.wf(),
            children_bounded(node.spec_children(), old(self).spec_next_id()),
            parent_bounded(node.spec_parent(), old(self).spec_next_id()),
            old(self).spec_next_id() < u64::MAX,
        ensures
            final(self).wf(),
            r == old(self).spec_next_id(),
            final(self).spec_next_id() == r + 1,
            !old(self)@.contains_key(r),
            final(self)@.contains_key(r),
            final(self)@.len() == old(self)@.len() + 1,
            final(self)@[r].spec_id() == r,
            final(self)@[r].spec_name() == node.spec_name(),
            final(self)@[r].spec_parent() == node.spec_parent(),
            final(self)@[r].spec_children() == node.spec_children(),
            final(self)@[r].spec_transform() == node.spec_transform(),
            forall|k: u64| k != r ==> (final(self)@.contains_key(k) <==> old(
                self,
            )@.contains_key(k)),
            forall|k: u64| k != r && old(self)@.contains_key(k) ==> final(self)@[k] == old(
                self,
            )@[k],
    {
        let node_id = self.cur_id;
        proof {
            if self@.contains_key(node_id) {
                assert(self.node_ok(node_id));
            }
        }
        let mut node = node;
        node.set_id(node_id);
        self.members.insert(node_id, node);
        self.cur_id = self.cur_id + 1;
        proof {
            assert forall|k: u64| self@.contains_key(k) implies self.node_ok(k) by {
                if k != node_id {
                    assert(old(self).node_ok(k));
                }
            }
        }
        node_id
    }

    /// Look a node up by id.
    pub fn get_node(&self, node_id: u64) -> (r: Option<&SceneNode>)
        ensures
            match r {
                Some(n) => self@.contains_key(node_id) && *n == self@[node_id],
                None => !self@.contains_key(node_id),
            },
    {
        self.members.get(&node_id)
    }

    /// Look a node up by id, mutably: the store afterwards holds whatever
    /// the caller leaves behind the borrow. The node's public mutators keep
    /// its id and its invariant, so the arena's invariant can be
    /// re-established after the borrow ends.
    pub fn get_node_mut(&mut self, node_id: u64) -> (r: Option<&mut SceneNode>)
        ensures
            final(self).spec_next_id() == old(self).spec_next_id(),
            old(self)@.contains_key(node_id) ==> (r matches Some(v) && *v == old(self)@[node_id]
                && final(self)@ == old(self)@.insert(node_id, *final(v))),
            !old(self)@.contains_key(node_id) ==> (r matches None && final(self)@ == old(self)@),
    {
        members_get_mut(&mut self.members, node_id)
    }

    /// Delete a node by id. Nothing cascades: the id stays in any child list
    /// that held it, and children of the removed node keep their parent id.
    pub fn remove_node(&mut self, node_id: u64)
        requires
            old(self).wf(),
        ensures
            final(self).wf(),
            final(self).spec_next_id() == old(self).spec_next_id(),
            final(self)@ == old(self)@.remove(node_id),
            !final(self)@.contains_key(node_id),
            final(self)@.len() == old(self)@.len() - (if old(self)@.contains_key(node_id) {
                1int
            } else {
                0int
            }),
    {
        let _removed = self.members.remove(&node_id);
        proof {
            if old(self)@.contains_key(node_id) {
                old(self)@.lemma_remove_key_len(node_id);
            } else {
                assert(old(self)@.remove(node_id) =~= old(self)@);
            }
            assert forall|k: u64| self@.contains_key(k) implies self.node_ok(k) by {
                assert(old(self).node_ok(k));
            }
        }
    }

    /// Whether the arena holds a node with this id.
    pub fn has_node(&self, node_id: u64) -> (r: bool)
        ensures
            r == self@.contains_key(node_id),
    {
        self.members.contains_key(&node_id)
    }

    /// How many nodes are live right now.
    pub fn node_count(&self) -> (r: usize)
        ensures
            r == self@.len(),
    {
        self.members.len()
    }

    /// Append `child_id` to the child list of node `node_id`, if the arena
    /// holds `child_id` and the list does not; otherwise nothing changes.
    /// The child's own parent field is not touched.
    pub fn add_child_id(&mut self, node_id: u64, child_id: u64)
        requires
            old(self).wf(),
        ensures
            final(self).wf(),
            final(self).spec_next_id() == old(self).spec_next_id(),
            final(self)@.len() == old(self)@.len(),
            forall|k: u64| final(self)@.contains_key(k) <==> old(self)@.contains_key(k),
            forall|k: u64| k != node_id && old(self)@.contains_key(k) ==> final(self)@[k] == old(
                self,
            )@[k],
            old(self)@.contains_key(node_id) ==> {
                &&& final(self)@[node_id].spec_children() == spec_child_add(
                    old(self)@[node_id].spec_children(),
                    old(self)@.contains_key(child_id),
                    child_id,
                )
                &&& final(self)@[node_id].spec_id() == old(self)@[node_id].spec_id()
                &&& final(self)@[node_id].spec_name() == old(self)@[node_id].spec_name()
                &&& final(self)@[node_id].spec_parent() == old(self)@[node_id].spec_parent()
                &&& final(self)@[node_id].spec_transform() == old(self)@[node_id].spec_transform()
            },
            !old(self)@.contains_key(node_id) ==> final(self)@ == old(self)@,
    {
        let child_present = self.members.contains_key(&child_id);
        let taken = self.members.remove(&node_id);
        match taken {
            None => {
                proof {
                    assert(old(self)@.remove(node_id) =~= old(self)@);
                    assert forall|k: u64| self@.contains_key(k) implies self.node_ok(k) by {
                        assert(old(self).node_ok(k));
                    }
                }
            },
            Some(node) => {
                proof {
                    assert(old(self).node_ok(node_id));
                }
                let mut node = node;
                if child_present {
                    node.push_child_if_absent(child_id);
                }
                self.members.insert(node_id, node);
                proof {
                    assert(self@ =~= old(self)@.insert(node_id, self@[node_id]));
                    assert(self@.dom() =~= old(self)@.dom());
                    assert forall|k: u64| self@.contains_key(k) implies self.node_ok(k) by {
                        assert(old(self).node_ok(k));
                        if k == node_id {
                            if child_present {
                                assert(old(self).node_ok(child_id));
                            }
                        }
                    }
                }
            },
        }
    }

    /// Append the id of an already-stored node to the child list of node
    /// `node_id`, under the same rules as `add_child_id`.
    pub fn add_child(&mut self, node_id: u64, child_node: &SceneNode)
        requires
            old(self).wf(),
        ensures
            final(self).wf(),
            final(self).spec_next_id() == old(self).spec_next_id(),
            final(self)@.len() == old(self)@.len(),
            forall|k: u64| final(self)@.contains_key(k) <==> old(self)@.contains_key(k),
            forall|k: u64| k != node_id && old(self)@.contains_key(k) ==> final(self)@[k] == old(
                self,
            )@[k],
            old(self)@.contains_key(node_id) ==> {
                &&& final(self)@[node_id].spec_children() == spec_child_add(
                    old(self)@[node_id].spec_children(),
                    old(self)@.contains_key(child_node.spec_id()),
                    child_node.spec_id(),
                )
                &&& final(self)@[node_id].spec_id() == old(self)@[node_id].spec_id()
                &&& final(self)@[node_id].spec_name() == old(self)@[node_id].spec_name()
                &&& final(self)@[node_id].spec_parent() == old(self)@[node_id].spec_parent()
                &&& final(self)@[node_id].spec_transform() == old(self)@[node_id].spec_transform()
            },
            !old(self)@.contains_key(node_id) ==> final(self)@ == old(self)@,
    {
        let child_id = child_node.get_id();
        self.add_child_id(node_id, child_id);
    }

    /// Remove `child_id` from the child list of node `node_id`, if present.
    /// The removed child's own parent field is not touched.
    pub fn remove_child(&mut self, node_id: u64, child_id: u64)
        requires
            old(self).wf(),
        ensures
            final(self).wf(),
            final(self).spec_next_id() == old(self).spec_next_id(),
            final(self)@.len() == old(self)@.len(),
            forall|k: u64| final(self)@.contains_key(k) <==> old(self)@.contains_key(k),
            forall|k: u64| k != node_id && old(self)@.contains_key(k) ==> final(self)@[k] == old(
                self,
            )@[k],
            old(self)@.contains_key(node_id) ==> {
                &&& final(self)@[node_id].spec_children() == spec_child_remove(
                    old(self)@[node_id].spec_children(),
                    child_id,
                )
                &&& final(self)@[node_id].spec_id() == old(self)@[node_id].spec_id()
                &&& final(self)@[node_id].spec_name() == old(self)@[node_id].spec_name()
                &&& final(self)@[node_id].spec_parent() == old(self)@[node_id].spec_parent()
                &&& final(self)@[node_id].spec_transform() == old(self)@[node_id].spec_transform()
            },
            !old(self)@.contains_key(node_id) ==> final(self)@ == old(self)@,
    {
        let taken = self.members.remove(&node_id);
        match taken {
            None => {
                proof {
                    assert(old(self)@.remove(node_id) =~= old(self)@);
                    assert forall|k: u64| self@.contains_key(k) implies self.node_ok(k) by {
                        assert(old(self).node_ok(k));
                    }
                }
            },
            Some(node) => {
                proof {
                    assert(old(self).node_ok(node_id));
                }
                let mut node = node;
                node.remove_child(child_id);
                self.members.insert(node_id, node);
                proof {
                    assert(self@ =~= old(self)@.insert(node_id, self@[node_id]));
                    assert(self@.dom() =~= old(self)@.dom());
                    lemma_child_remove_keeps_bound(
                        old(self)@[node_id].spec_children(),
                        child_id,
                        old(self).spec_next_id(),
                    );
                    assert forall|k: u64| self@.contains_key(k) implies self.node_ok(k) by {
                        assert(old(self).node_ok(k));
                    }
                }
            },
        }
    }

    /// Point node `node_id`'s parent field at `parent_id`, if the arena
    /// holds `parent_id`; otherwise nothing changes. The old parent's child
    /// list keeps the node's id, and the new parent's child list does not
    /// gain it: a caller re-parenting a node issues both updates itself.
    pub fn set_parent_id(&mut self, node_id: u64, parent_id: u64)
        requires
            old(self).wf(),
        ensures
            final(self).wf(),
            final(self).spec_next_id() == old(self).spec_next_id(),
            final(self)@.len() == old(self)@.len(),
            forall|k: u64| final(self)@.contains_key(k) <==> old(self)@.contains_key(k),
            forall|k: u64| k != node_id && old(self)@.contains_key(k) ==> final(self)@[k] == old(
                self,
            )@[k],
            old(self)@.contains_key(node_id) ==> {
                &&& final(self)@[node_id].spec_parent() == (if old(self)@.contains_key(parent_id) {
                    Some(parent_id)
                } else {
                    old(self)@[node_id].spec_parent()
                })
                &&& final(self)@[node_id].spec_id() == old(self)@[node_id].spec_id()
                &&& final(self)@[node_id].spec_name() == old(self)@[node_id].spec_name()
                &&& final(self)@[node_id].spec_children() == old(self)@[node_id].spec_children()
                &&& final(self)@[node_id].spec_transform() == old(self)@[node_id].spec_transform()
            },
            !old(self)@.contains_key(node_id) ==> final(self)@ == old(self)@,
    {
        let parent_present = self.members.contains_key(&parent_id);
        let taken = self.members.remove(&node_id);
        match taken {
            None => {
                proof {
                    assert(old(self)@.remove(node_id) =~= old(self)@);
                    assert forall|k: u64| self@.contains_key(k) implies self.node_ok(k) by {
                        assert(old(self).node_ok(k));
                    }
                }
            },
            Some(node) => {
                proof {
                    assert(old(self).node_ok(node_id));
                }
                let mut node = node;
                if parent_present {
                    node.set_parent(parent_id);
                }
                self.members.insert(node_id, node);
                proof {
                    assert(self@ =~= old(self)@.insert(node_id, self@[node_id]));
                    assert(self@.dom() =~= old(self)@.dom());
                    assert forall|k: u64| self@.contains_key(k) implies self.node_ok(k) by {
                        assert(old(self).node_ok(k));
                        if k == node_id && parent_present {
                            assert(old(self).node_ok(parent_id));
                        }
                    }
                }
            },
        }
    }
}

/// Relies on std's `HashMap::get_mut`: the stored value for the key,
/// borrowed mutably; the map afterwards holds whatever the caller leaves
/// behind the borrow, and an absent key leaves the map untouched.
#[verifier::external_body]
fn members_get_mut(m: &mut HashMap<u64, SceneNode>, node_id: u64) -> (r: Option<&mut SceneNode>)
    ensures
        old(m)@.contains_key(node_id) ==> (r matches Some(v) && *v == old(m)@[node_id]
            && final(m)@ == old(m)@.insert(node_id, *final(v))),
        !old(m)@.contains_key(node_id) ==> (r matches None && final(m)@ == old(m)@),
{
    m.get_mut(&node_id)
}

/// Removing a child id keeps every remaining id below the same bound.
proof fn lemma_child_remove_keeps_bound(children: Seq<u64>, child_id: u64, bound: u64)
    requires
        children_bounded(children, bound),
    ensures
        children_bounded(spec_child_remove(children, child_id), bound),
{
    let r = spec_child_remove(children, child_id);
    if children.contains(child_id) {
        let at = children.index_of(child_id);
        assert forall|i: int| 0 <= i < r.len() implies r[i] < bound by {
            if i < at {
                assert(r[i] == children[i]);
            } else {
                assert(r[i] == children[i + 1]);
            }
        }
    }
}

} // verus!
