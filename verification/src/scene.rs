//! Scene hierarchy: nodes with parents, children and components, owned by
//! a scene that hands out fresh identifiers.

use vstd::prelude::*;
use crate::common::str_eq;
use crate::common::Transform;
use crate::common::VibeVJError;
use crate::component::Component;

verus! {

broadcast use vstd::string::to_string_from_display_ensures_for_str;

/// Unique identifier of a scene node.
#[derive(Debug, Clone, Copy, PartialEq, Eq, Hash, Structural)]
pub struct NodeId(pub u64);

impl NodeId {
    pub fn new(id: u64) -> (n: NodeId)
        ensures
            n == NodeId(id),
    {
        NodeId(id)
    }
}

/// The child identifiers of `s` other than `id`, in order.
pub open spec fn children_without(s: Seq<NodeId>, id: NodeId) -> Seq<NodeId>
    decreases s.len(),
{
    if s.len() == 0 {
        Seq::empty()
    } else if s.last() == id {
        children_without(s.drop_last(), id)
    } else {
        children_without(s.drop_last(), id).push(s.last())
    }
}

/// A node in the scene hierarchy.
#[derive(Debug, Clone, PartialEq, Eq)]
pub struct SceneNode {
    pub id: NodeId,
    pub name: String,
    pub transform: Transform,
    pub visible: bool,
    pub parent: Option<NodeId>,
    pub children: Vec<NodeId>,
    pub components: Vec<Component>,
}

impl SceneNode {
    pub fn new(id: NodeId, name: String) -> (n: SceneNode)
        ensures
            n.id == id,
            n.name == name,
            n.visible,
            n.parent is None,
            n.children@.len() == 0,
            n.components@.len() == 0,
            n.transform.position@ == seq![0u32, 0u32, 0u32],
            n.transform.rotation@ == seq![0u32, 0u32, 0u32],
    {
        SceneNode {
            id,
            name,
            transform: Transform::default(),
            visible: true,
            parent: None,
            children: Vec::new(),
            components: Vec::new(),
        }
    }

    /// Add the child identifier unless it is already recorded.
    pub fn add_child(&mut self, child_id: NodeId)
        ensures
            old(self).children@.contains(child_id) ==> *final(self) == *old(self),
            !old(self).children@.contains(child_id) ==> *final(self) == (SceneNode {
                children: final(self).children,
                ..*old(self)
            }) && final(self).children@ == old(self).children@.push(child_id),
            final(self).children@.contains(child_id),
    {
        let n = self.children.len();
        let mut i: usize = 0;
        while i < n
            invariant
                *self == *old(self),
                n == self.children@.len(),
                i <= n,
                forall|k: int| 0 <= k < i ==> self.children@[k] != child_id,
            decreases n - i,
        {
            if self.children[i] == child_id {
                proof {
                    assert(self.children@.contains(child_id));
                }
                return ;
            }
            i = i + 1;
        }
        self.children.push(child_id);
        proof {
            assert(self.children@[old(self).children@.len() as int] == child_id);
            assert(self.children@.contains(child_id));
        }
    }

    /// Remove every occurrence of the child identifier.
    pub fn remove_child(&mut self, child_id: NodeId)
        ensures
            final(self).children@ == children_without(old(self).children@, child_id),
            *final(self) == (SceneNode { children: final(self).children, ..*old(self) }),
    {
        let mut kept: Vec<NodeId> = Vec::new();
        let n = self.children.len();
        let mut i: usize = 0;
        while i < n
            invariant
                *self == *old(self),
                n == self.children@.len(),
                i <= n,
                kept@ == children_without(self.children@.take(i as int), child_id),
            decreases n - i,
        {
            let c = self.children[i];
            if !(c == child_id) {
                kept.push(c);
            }
            proof {
                assert(self.children@.take(i + 1 as int).drop_last() =~= self.children@.take(
                    i as int,
                ));
                assert(self.children@.take(i + 1 as int).last() == self.children@[i as int]);
            }
            i = i + 1;
        }
        proof {
            assert(self.children@.take(n as int) =~= self.children@);
        }
        self.children = kept;
    }

    /// Attach a component.
    pub fn add_component(&mut self, component: Component)
        ensures
            final(self).components@ == old(self).components@.push(component),
            *final(self) == (SceneNode { components: final(self).components, ..*old(self) }),
    {
        self.components.push(component);
    }

    /// The first component of the named type, if any.
    pub fn get_component(&self, component_type: &str) -> (r: Option<&Component>)
        ensures
            r is Some <==> exists|i: int|
                0 <= i < self.components@.len() && (#[trigger] self.components@[i])
                    .component_type_spec() == component_type@,
            r matches Some(c) ==> exists|i: int|
                {
                    &&& 0 <= i < self.components@.len()
                    &&& #[trigger] self.components@[i] == *c
                    &&& self.components@[i].component_type_spec() == component_type@
                    &&& forall|j: int|
                        0 <= j < i ==> (#[trigger] self.components@[j]).component_type_spec()
                            != component_type@
                },
    {
        let n = self.components.len();
        let mut i: usize = 0;
        while i < n
            invariant
                n == self.components@.len(),
                i <= n,
                forall|k: int|
                    0 <= k < i ==> (#[trigger] self.components@[k]).component_type_spec()
                        != component_type@,
            decreases n - i,
        {
            let c = &self.components[i];
            if str_eq(c.component_type(), component_type) {
                return Some(c);
            }
            i = i + 1;
        }
        None
    }
}

/// Identifiers of `nodes` are pairwise distinct.
pub open spec fn ids_unique(nodes: Seq<SceneNode>) -> bool {
    forall|p: int, q: int| 0 <= p < q < nodes.len() ==> nodes[p].id.0 != nodes[q].id.0
}

/// Identifiers of `nodes` lie below `bound`.
pub open spec fn ids_below(nodes: Seq<SceneNode>, bound: int) -> bool {
    forall|i: int| 0 <= i < nodes.len() ==> (#[trigger] nodes[i]).id.0 < bound
}

/// Every identifier of `nodes` occurs in `from`.
pub open spec fn ids_from(nodes: Seq<SceneNode>, from: Seq<SceneNode>) -> bool {
    forall|i: int|
        0 <= i < nodes.len() ==> exists|j: int|
            0 <= j < from.len() && (#[trigger] nodes[i]).id == from[j].id
}

/// A scene: a hierarchy of nodes under one root, with fresh identifiers
/// counted up from the root's.
#[derive(Debug, Clone, PartialEq, Eq)]
pub struct Scene {
    pub name: String,
    pub root: NodeId,
    pub nodes: Vec<SceneNode>,
    pub next_id: u64,
}

impl Scene {
    /// Some node carries the identifier.
    pub open spec fn has_id(self, id: u64) -> bool {
        exists|i: int| 0 <= i < self.nodes@.len() && (#[trigger] self.nodes@[i]).id.0 == id
    }

    /// Node identifiers are unique and below the next fresh one, and the
    /// root identifier is zero.
    pub open spec fn wf(self) -> bool {
        &&& ids_unique(self.nodes@)
        &&& ids_below(self.nodes@, self.next_id as int)
        &&& self.root == NodeId(0)
    }

    /// An empty scene holding only its root node.
    pub fn new(name: String) -> (s: Scene)
        ensures
            s.name == name,
            s.root == NodeId(0),
            s.next_id == 1,
            s.nodes@.len() == 1,
            s.nodes@[0].id == NodeId(0),
            s.nodes@[0].name@ == "Root"@,
            s.nodes@[0].children@.len() == 0,
            s.wf(),
            s.has_id(0),
    {
        let root_id = NodeId::new(0);
        let root_node = SceneNode::new(root_id, "Root".to_string());
        let mut nodes: Vec<SceneNode> = Vec::new();
        nodes.push(root_node);
        Scene { name, root: root_id, nodes, next_id: 1 }
    }

    /// The index of the node carrying the identifier.
    fn find_index(&self, id: u64) -> (r: Option<usize>)
        ensures
            r is Some <==> self.has_id(id),
            r matches Some(i) ==> 0 <= i < self.nodes@.len() && self.nodes@[i as int].id.0 == id,
    {
        let n = self.nodes.len();
        let mut i: usize = 0;
        while i < n
            invariant
                n == self.nodes@.len(),
                i <= n,
                forall|k: int| 0 <= k < i ==> (#[trigger] self.nodes@[k]).id.0 != id,
            decreases n - i,
        {
            if self.nodes[i].id.0 == id {
                return Some(i);
            }
            i = i + 1;
        }
        None
    }

    /// Create a node under the given parent (the root when none is named)
    /// and hand out its fresh identifier.  A fresh identifier is consumed
    /// even when the parent is missing and the node is not created.
    pub fn create_node(&mut self, name: String, parent: Option<NodeId>) -> (r: Result<
        NodeId,
        VibeVJError,
    >)
        requires
            old(self).wf(),
            old(self).next_id < u64::MAX,
        ensures
            final(self).wf(),
            final(self).name == old(self).name,
            final(self).root == old(self).root,
            final(self).next_id == old(self).next_id + 1,
            ({
                let parent_id = if parent is Some {
                    parent->0
                } else {
                    old(self).root
                };
                &&& (r is Ok <==> old(self).has_id(parent_id.0))
                &&& (r is Ok ==> {
                    &&& r->Ok_0 == NodeId(old(self).next_id)
                    &&& final(self).nodes@.len() == old(self).nodes@.len() + 1
                    &&& final(self).nodes@.last().id == NodeId(old(self).next_id)
                    &&& final(self).nodes@.last().name == name
                    &&& final(self).nodes@.last().parent == Some(parent_id)
                    &&& final(self).nodes@.last().children@.len() == 0
                    &&& final(self).has_id(old(self).next_id)
                    &&& exists|k: int|
                        {
                            &&& 0 <= k < old(self).nodes@.len()
                            &&& (#[trigger] old(self).nodes@[k]).id == parent_id
                            &&& final(self).nodes@[k].children@.contains(
                                NodeId(old(self).next_id),
                            )
                            &&& (!old(self).nodes@[k].children@.contains(
                                NodeId(old(self).next_id),
                            ) ==> final(self).nodes@[k].children@ == old(self).nodes@[k].children@.push(NodeId(old(self).next_id)))
                            &&& final(self).nodes@[k] == (SceneNode {
                                children: final(self).nodes@[k].children,
                                ..old(self).nodes@[k]
                            })
                            &&& forall|j: int|
                                0 <= j < old(self).nodes@.len() && j != k ==> final(self).nodes@[j] == old(self).nodes@[j]
                        }
                })
                &&& (r is Err ==> final(self).nodes == old(self).nodes && (r matches Err(
                    VibeVJError::SceneError(m),
                ) && m@ == "Parent node not found"@))
            }),
    {
        let id = NodeId::new(self.next_id);
        self.next_id = self.next_id + 1;
        let parent_id = match parent {
            Some(p) => p,
            None => self.root,
        };
        let found = self.find_index(parent_id.0);
        match found {
            None => Err(VibeVJError::SceneError("Parent node not found".to_string())),
            Some(pi) => {
                let ghost pre = *self;
                let mut node = SceneNode::new(id, name);
                node.parent = Some(parent_id);
                self.nodes[pi].add_child(id);
                self.nodes.push(node);
                proof {
                    let k = pi as int;
                    let nodes_new = self.nodes@;
                    let nodes_old = pre.nodes@;
                    assert(nodes_new.len() == nodes_old.len() + 1);
                    assert(forall|j: int|
                        0 <= j < nodes_old.len() && j != k ==> nodes_new[j] == nodes_old[j]);
                    assert(nodes_new[k].id == nodes_old[k].id);
                    assert(nodes_new.last().id.0 == old(self).next_id);
                    assert(self.has_id(old(self).next_id));
                    assert forall|p: int, q: int|
                        0 <= p < q < nodes_new.len() implies nodes_new[p].id.0
                        != nodes_new[q].id.0 by {
                        if q < nodes_old.len() {
                            assert(nodes_new[p].id == nodes_old[p].id);
                            assert(nodes_new[q].id == nodes_old[q].id);
                        } else {
                            assert(nodes_new[p].id == nodes_old[p].id);
                            assert(nodes_old[p].id.0 < old(self).next_id);
                        }
                    }
                    assert forall|i: int|
                        0 <= i < nodes_new.len() implies (#[trigger] nodes_new[i]).id.0
                        < self.next_id by {
                        if i < nodes_old.len() {
                            assert(nodes_new[i].id == nodes_old[i].id);
                        }
                    }
                }
                Ok(id)
            },
        }
    }

    /// The node carrying the identifier, if it exists.
    pub fn get_node(&self, id: NodeId) -> (r: Option<&SceneNode>)
        ensures
            r is Some <==> self.has_id(id.0),
            r matches Some(n) ==> n.id == id && exists|i: int|
                0 <= i < self.nodes@.len() && (#[trigger] self.nodes@[i]) == *n,
    {
        let found = self.find_index(id.0);
        match found {
            None => None,
            Some(i) => Some(&self.nodes[i]),
        }
    }

    /// Remove the node carrying the identifier together with all its
    /// descendants; the root cannot be removed.  A missing identifier
    /// removes nothing.
    #[verifier::rlimit(60)]
    pub fn remove_node(&mut self, id: NodeId) -> (r: Result<(), VibeVJError>)
        requires
            old(self).wf(),
        ensures
            final(self).wf(),
            id == old(self).root ==> *final(self) == *old(self) && (r matches Err(
                VibeVJError::SceneError(m),
            ) && m@ == "Cannot remove root node"@),
            id != old(self).root ==> r is Ok && !final(self).has_id(id.0),
            final(self).name == old(self).name,
            final(self).root == old(self).root,
            final(self).next_id == old(self).next_id,
            ids_from(final(self).nodes@, old(self).nodes@),
    {
        if self.root.0 == id.0 {
            proof {
                assert(id == old(self).root);
                assert(ids_from(self.nodes@, old(self).nodes@)) by {
                    assert(forall|i: int|
                        0 <= i < self.nodes@.len() ==> (#[trigger] self.nodes@[i]).id
                            == old(self).nodes@[i].id);
                }
            }
            return Err(VibeVJError::SceneError("Cannot remove root node".to_string()));
        }
        let ghost olds = *old(self);
        let found = self.find_index(id.0);
        let first_children: Vec<NodeId> = match found {
            None => {
                proof {
                    assert(ids_from(self.nodes@, olds.nodes@)) by {
                        assert(forall|i: int|
                            0 <= i < self.nodes@.len() ==> (#[trigger] self.nodes@[i]).id
                                == olds.nodes@[i].id);
                    }
                }
                return Ok(());
            },
            Some(idx) => {
                let target_parent = self.nodes[idx].parent;
                match target_parent {
                    Some(pid) => {
                        let pfound = self.find_index(pid.0);
                        match pfound {
                            Some(pidx) => {
                                self.nodes[pidx].remove_child(id);
                            },
                            None => {},
                        }
                    },
                    None => {},
                }
                proof {
                    assert(forall|j: int|
                        0 <= j < self.nodes@.len() ==> (#[trigger] self.nodes@[j]).id
                            == olds.nodes@[j].id);
                }
                let found2 = self.find_index(id.0);
                match found2 {
                    None => Vec::new(),
                    Some(idx2) => {
                        let ghost before = self.nodes@;
                        let removed = self.nodes.remove(idx2);
                        proof {
                            lemma_nodes_remove_step(before, idx2 as int, self.next_id as int);
                            assert forall|i: int|
                                0 <= i < self.nodes@.len() implies (
                            #[trigger] self.nodes@[i]).id.0 != id.0 by {
                                if i < idx2 {
                                    assert(self.nodes@[i] == before[i]);
                                } else {
                                    assert(self.nodes@[i] == before[i + 1]);
                                }
                            }
                            assert forall|i: int|
                                0 <= i < self.nodes@.len() implies exists|j: int|
                                    0 <= j < olds.nodes@.len() && (#[trigger] self.nodes@[i]).id
                                        == olds.nodes@[j].id by {
                                if i < idx2 {
                                    assert(self.nodes@[i].id == olds.nodes@[i].id);
                                } else {
                                    assert(self.nodes@[i].id == olds.nodes@[i + 1].id);
                                }
                            }
                        }
                        removed.children
                    },
                }
            },
        };
        let mut stack = first_children;
        while stack.len() > 0
            invariant
                self.name == olds.name,
                self.root == olds.root,
                self.next_id == olds.next_id,
                self.root == NodeId(0),
                !self.has_id(id.0),
                ids_unique(self.nodes@),
                ids_below(self.nodes@, self.next_id as int),
                ids_from(self.nodes@, olds.nodes@),
            decreases self.nodes@.len(), stack@.len(),
        {
            let tid = stack.pop().unwrap();
            let tfound = self.find_index(tid.0);
            match tfound {
                None => {},
                Some(ti) => {
                    let ghost before = self.nodes@;
                    proof {
                        assert(forall|i: int|
                            0 <= i < before.len() ==> (#[trigger] before[i]).id.0 != id.0);
                    }
                    let removed = self.nodes.remove(ti);
                    proof {
                        lemma_nodes_remove_step(before, ti as int, self.next_id as int);
                        assert forall|i: int|
                            0 <= i < self.nodes@.len() implies (#[trigger] self.nodes@[i]).id.0
                            != id.0 by {
                            if i < ti {
                                assert(self.nodes@[i] == before[i]);
                            } else {
                                assert(self.nodes@[i] == before[i + 1]);
                            }
                        }
                        assert forall|i: int|
                            0 <= i < self.nodes@.len() implies exists|j: int|
                                0 <= j < olds.nodes@.len() && (#[trigger] self.nodes@[i]).id
                                    == olds.nodes@[j].id by {
                            let m = choose|m: int|
                                0 <= m < before.len() && self.nodes@[i].id == before[m].id;
                            assert(before[m].id == self.nodes@[i].id);
                        }
                    }
                    let mut ci: usize = 0;
                    let ghost nodes_snapshot = self.nodes@;
                    let ghost frame = *self;
                    while ci < removed.children.len()
                        invariant
                            *self == frame,
                            ci <= removed.children@.len(),
                        decreases removed.children@.len() - ci,
                    {
                        stack.push(removed.children[ci]);
                        ci = ci + 1;
                    }
                },
            }
        }
        Ok(())
    }

    /// Drop every node but the root and restart the identifier counter.
    pub fn clear(&mut self)
        requires
            old(self).wf(),
            old(self).has_id(old(self).root.0),
        ensures
            final(self).wf(),
            final(self).name == old(self).name,
            final(self).root == old(self).root,
            final(self).next_id == 1,
            final(self).nodes@.len() == 1,
            final(self).nodes@[0].id == old(self).root,
            exists|j: int|
                0 <= j < old(self).nodes@.len() && final(self).nodes@[0] == (
                #[trigger] old(self).nodes@[j]),
    {
        let found = self.find_index(self.root.0);
        let idx = match found {
            Some(i) => i,
            None => 0,
        };
        let ghost before = self.nodes@;
        let root_node = self.nodes.remove(idx);
        proof {
            assert(root_node == before[idx as int]);
        }
        let mut nodes: Vec<SceneNode> = Vec::new();
        nodes.push(root_node);
        self.nodes = nodes;
        self.next_id = 1;
    }

    /// How many nodes the scene holds.
    pub fn len(&self) -> (r: usize)
        ensures
            r == self.nodes@.len(),
    {
        self.nodes.len()
    }

    /// All node identifiers, in storage order.
    pub fn node_ids(&self) -> (r: Vec<NodeId>)
        ensures
            r@.len() == self.nodes@.len(),
            forall|i: int| 0 <= i < r@.len() ==> #[trigger] r@[i] == self.nodes@[i].id,
    {
        let mut out: Vec<NodeId> = Vec::new();
        let n = self.nodes.len();
        let mut i: usize = 0;
        while i < n
            invariant
                n == self.nodes@.len(),
                i <= n,
                out@.len() == i,
                forall|k: int| 0 <= k < i ==> #[trigger] out@[k] == self.nodes@[k].id,
            decreases n - i,
        {
            out.push(self.nodes[i].id);
            i = i + 1;
        }
        out
    }
}

/// Removing one node keeps identifiers unique and bounded, and every
/// remaining identifier was there before.
proof fn lemma_nodes_remove_step(before: Seq<SceneNode>, k: int, next_id: int)
    requires
        0 <= k < before.len(),
        ids_unique(before),
        ids_below(before, next_id),
    ensures
        ids_unique(before.remove(k)),
        ids_below(before.remove(k), next_id),
        ids_from(before.remove(k), before),
        forall|i: int|
            0 <= i < before.remove(k).len() ==> #[trigger] before.remove(k)[i] == (if i < k {
                before[i]
            } else {
                before[i + 1]
            }),
{
    before.remove_ensures(k);
    let after = before.remove(k);
    assert forall|i: int|
        0 <= i < after.len() implies #[trigger] after[i] == (if i < k {
            before[i]
        } else {
            before[i + 1]
        }) by {}
    assert forall|p: int, q: int|
        0 <= p < q < after.len() implies after[p].id.0 != after[q].id.0 by {
        assert(after[p] == if p < k {
            before[p]
        } else {
            before[p + 1]
        });
        assert(after[q] == if q < k {
            before[q]
        } else {
            before[q + 1]
        });
    }
    assert forall|i: int| 0 <= i < after.len() implies (#[trigger] after[i]).id.0 < next_id by {
        assert(after[i] == if i < k {
            before[i]
        } else {
            before[i + 1]
        });
    }
    assert forall|i: int|
        0 <= i < after.len() implies exists|j: int|
            0 <= j < before.len() && (#[trigger] after[i]).id == before[j].id by {
        if i < k {
            assert(after[i].id == before[i].id);
        } else {
            assert(after[i].id == before[i + 1].id);
        }
    }
}

} // verus!
