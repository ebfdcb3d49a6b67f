use glam::Vec3;
use scene_graph::scene_arena::SceneArena;
use scene_graph::scene_node::SceneNode;

#[test]
fn create_root_and_child_links_them() {
    let mut arena = SceneArena::new();
    let root = SceneNode::create_new(&mut arena, Some("root"), None);
    assert_eq!(root, 0);
    let child = SceneNode::create_new(&mut arena, Some("child"), Some(root));
    assert_eq!(child, 1);

    let root_node = arena.get_node(0).unwrap();
    assert_eq!(root_node.get_children_ids(&arena), vec![1]);
    assert_eq!(root_node.get_name(), "root");
    assert_eq!(root_node.get_id(), 0);
    assert_eq!(root_node.get_parent_id(), None);

    let child_node = arena.get_node(1).unwrap();
    assert_eq!(child_node.get_name(), "child");
    assert_eq!(child_node.get_parent_id(), Some(0));
    assert_eq!(child_node.get_parent(&arena).unwrap().get_id(), 0);
}

#[test]
fn remove_node_does_not_cascade() {
    let mut arena = SceneArena::new();
    let root = SceneNode::create_new(&mut arena, Some("root"), None);
    let child = SceneNode::create_new(&mut arena, Some("child"), Some(root));
    arena.remove_node(child);

    assert!(!arena.has_node(1));
    assert_eq!(arena.node_count(), 1);

    let root_node = arena.get_node(0).unwrap();
    // The stale id 1 still sits in the child list ...
    assert_eq!(root_node.get_child_count(), 1);
    // ... but no longer resolves.
    assert!(root_node.get_child(&arena, 0).is_none());
    assert_eq!(root_node.get_children_ids(&arena), Vec::<u64>::new());
}

#[test]
fn traversal_truncates_at_first_stale_id() {
    let mut arena = SceneArena::new();
    for _i in 0..10 {
        SceneNode::create_new(&mut arena, None, None);
    }
    arena.add_child_id(0, 5);
    arena.add_child_id(0, 7);
    arena.add_child_id(0, 9);
    arena.remove_node(7);

    let node = arena.get_node(0).unwrap();
    // The walk stops at the stale id 7 and also drops 9, live though it is:
    // the original truncation-at-first-gap policy, reproduced on purpose.
    assert_eq!(node.get_children_ids(&arena), vec![5]);
    let children = node.get_children(&arena);
    assert_eq!(children.len(), 1);
    assert_eq!(children[0].get_id(), 5);
    // Direct indexing still resolves the live id behind the gap.
    assert_eq!(node.get_child(&arena, 2).unwrap().get_id(), 9);
}

#[test]
fn add_child_id_twice_keeps_one_entry() {
    let mut arena = SceneArena::new();
    let a = SceneNode::create_new(&mut arena, None, None);
    let b = SceneNode::create_new(&mut arena, None, None);
    arena.add_child_id(a, b);
    arena.add_child_id(a, b);
    let node = arena.get_node(a).unwrap();
    assert_eq!(node.get_children_ids(&arena), vec![b]);
    assert_eq!(node.get_child_count(), 1);
}

#[test]
fn ids_are_never_reused() {
    let mut arena = SceneArena::new();
    let a = SceneNode::create_new(&mut arena, None, None);
    let b = SceneNode::create_new(&mut arena, None, None);
    assert_eq!((a, b), (0, 1));
    arena.remove_node(b);
    let c = SceneNode::create_new(&mut arena, None, None);
    assert_eq!(c, 2);
    assert_eq!(arena.node_count(), 2);
}

#[test]
fn add_child_id_ignores_unknown_ids() {
    let mut arena = SceneArena::new();
    let a = SceneNode::create_new(&mut arena, None, None);
    arena.add_child_id(a, 42);
    assert_eq!(arena.get_node(a).unwrap().get_child_count(), 0);
    arena.add_child_id(42, a);
    assert_eq!(arena.node_count(), 1);
}

#[test]
fn a_node_may_list_itself_as_child() {
    let mut arena = SceneArena::new();
    let a = SceneNode::create_new(&mut arena, None, None);
    arena.add_child_id(a, a);
    assert_eq!(arena.get_node(a).unwrap().get_children_ids(&arena), vec![a]);
}

#[test]
fn remove_child_removes_only_that_id() {
    let mut arena = SceneArena::new();
    let root = SceneNode::create_new(&mut arena, Some("root"), None);
    let c1 = SceneNode::create_new(&mut arena, None, Some(root));
    let c2 = SceneNode::create_new(&mut arena, None, Some(root));
    let c3 = SceneNode::create_new(&mut arena, None, Some(root));
    arena.remove_child(root, c2);

    let root_node = arena.get_node(root).unwrap();
    assert_eq!(root_node.get_children_ids(&arena), vec![c1, c3]);
    // The removed child's own parent field is left as it was.
    assert_eq!(arena.get_node(c2).unwrap().get_parent_id(), Some(root));

    // Removing an id that is not listed changes nothing.
    arena.remove_child(root, 42);
    assert_eq!(
        arena.get_node(root).unwrap().get_children_ids(&arena),
        vec![c1, c3]
    );
}

#[test]
fn add_child_appends_a_stored_nodes_id() {
    let mut arena = SceneArena::new();
    let a = SceneNode::create_new(&mut arena, None, None);
    let b = SceneNode::create_new(&mut arena, None, None);
    let b_copy = arena.get_node(b).unwrap().clone();
    arena.add_child(a, &b_copy);
    assert_eq!(arena.get_node(a).unwrap().get_children_ids(&arena), vec![b]);
}

#[test]
fn set_parent_id_requires_a_live_parent() {
    let mut arena = SceneArena::new();
    let a = SceneNode::create_new(&mut arena, None, None);
    let b = SceneNode::create_new(&mut arena, None, None);
    arena.set_parent_id(b, a);
    assert_eq!(arena.get_node(b).unwrap().get_parent_id(), Some(a));
    // A stale id leaves the field untouched.
    arena.set_parent_id(b, 99);
    assert_eq!(arena.get_node(b).unwrap().get_parent_id(), Some(a));
    // The parent's child list is not updated by set_parent_id.
    assert_eq!(arena.get_node(a).unwrap().get_child_count(), 0);
}

#[test]
fn parent_resolution_goes_stale_after_removal() {
    let mut arena = SceneArena::new();
    let root = SceneNode::create_new(&mut arena, None, None);
    let child = SceneNode::create_new(&mut arena, None, Some(root));
    arena.remove_node(root);
    let child_node = arena.get_node(child).unwrap();
    // The dangling parent id stays stored but no longer resolves.
    assert_eq!(child_node.get_parent_id(), Some(root));
    assert!(child_node.get_parent(&arena).is_none());
}

#[test]
fn a_node_without_a_name_is_unnamed() {
    let mut arena = SceneArena::new();
    let a = SceneNode::create_new(&mut arena, None, None);
    assert_eq!(arena.get_node(a).unwrap().get_name(), "unnamed");
}

#[test]
fn stored_transform_is_mutable_through_the_arena() {
    let mut arena = SceneArena::new();
    let a = SceneNode::create_new(&mut arena, None, None);
    {
        let node = arena.get_node_mut(a).unwrap();
        node.get_transform().translate(Vec3::new(1.0, 2.0, 3.0));
    }
    let node = arena.get_node_mut(a).unwrap();
    assert_eq!(
        node.get_transform().get_local_position(),
        Vec3::new(1.0, 2.0, 3.0)
    );
    assert!(arena.get_node_mut(99).is_none());
}

#[test]
fn cloned_children_are_detached_copies() {
    let mut arena = SceneArena::new();
    let root = SceneNode::create_new(&mut arena, Some("root"), None);
    let child = SceneNode::create_new(&mut arena, Some("kid"), Some(root));
    let mut copies = arena.get_node(root).unwrap().get_children(&arena);
    assert_eq!(copies.len(), 1);
    assert_eq!(copies[0].get_name(), "kid");
    copies[0]
        .get_transform()
        .set_local_position(Vec3::new(5.0, 5.0, 5.0));
    // The copy moved; the stored node did not.
    let stored = arena.get_node_mut(child).unwrap();
    assert_eq!(stored.get_transform().get_local_position(), Vec3::ZERO);
}

#[test]
fn new_nodes_start_with_a_default_transform() {
    let mut arena = SceneArena::new();
    let a = SceneNode::create_new(&mut arena, None, None);
    let node = arena.get_node_mut(a).unwrap();
    let t = node.get_transform();
    assert_eq!(t.get_local_position(), Vec3::ZERO);
    assert_eq!(t.get_local_scale(), Vec3::ONE);
    assert_eq!(t.get_local_rotation(), glam::Quat::IDENTITY);
}
