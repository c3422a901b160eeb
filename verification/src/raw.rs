//! The objects of a descriptor's tree before it is known what kind of node
//! each one is.
//!
//! A descriptor does not tag its nodes. An object is a sync point or an
//! instance by the reserved keys that it holds, and every other key names a
//! child. The rule is applied here, once, to the whole tree.

use crate::node::{names_distinct, names_of};
use crate::project::SourceProject;
use crate::source::SourceProjectNode;
use std::collections::HashMap;
use vstd::prelude::*;

verus! {

/// An object of the tree, as its keys fall.
#[derive(Debug)]
pub struct RawNode {
    /// What stands under `$className`.
    pub class_name: Option<String>,
    /// What stands under `$path`.
    pub path: Option<String>,
    /// What stands under `$properties`.
    pub properties: Option<HashMap<String, rbx_tree::RbxValue>>,
    /// What stands under `$ignoreUnknown`.
    pub ignore_unknown: Option<bool>,
    /// What stands under every other key.
    pub children: Vec<(String, RawNode)>,
}

/// A descriptor whose tree is still raw.
#[derive(Debug)]
pub struct RawProject {
    pub name: String,
    pub tree: RawNode,
    pub serve_port: Option<u16>,
}

/// What kind of node an object is.
#[derive(Debug, Clone, Copy, PartialEq, Eq)]
pub enum NodeShape {
    /// It has a class name, and no path.
    Instance,
    /// It has a path, and no class name.
    SyncPoint,
    /// It has neither of the two, or both.
    Neither,
}

impl RawNode {
    /// The kind of node that the object is, by its reserved keys.
    pub open spec fn shape(self) -> NodeShape {
        if self.class_name is Some {
            if self.path is None {
                NodeShape::Instance
            } else {
                NodeShape::Neither
            }
        } else if self.path is Some {
            NodeShape::SyncPoint
        } else {
            NodeShape::Neither
        }
    }

    /// The object is a node: a sync point, or an instance whose children
    /// are nodes.
    pub open spec fn is_tree(self) -> bool
        decreases self,
    {
        match self.shape() {
            NodeShape::Instance => forall|i: int|
                0 <= i < self.children@.len() ==> (#[trigger] self.children@[i]).1.is_tree(),
            NodeShape::SyncPoint => true,
            NodeShape::Neither => false,
        }
    }

    /// `node` is what the object says: a sync point with its path, or an
    /// instance with its class name, with properties and flag as far as it
    /// sets them, and with what each of its children says under the child's
    /// name.
    pub open spec fn parses_as(self, node: SourceProjectNode) -> bool
        decreases self,
    {
        match self.shape() {
            NodeShape::Instance => {
                &&& node is Instance
                &&& node->class_name@ == self.class_name.unwrap()@
                &&& node->properties == self.properties
                &&& node->ignore_unknown == self.ignore_unknown
                &&& node->children@.len() == self.children@.len()
                &&& forall|i: int|
                    0 <= i < self.children@.len() ==> {
                        &&& node->children@[i].0@ == (#[trigger] self.children@[i]).0@
                        &&& self.children@[i].1.parses_as(node->children@[i].1)
                    }
            },
            NodeShape::SyncPoint => {
                &&& node is SyncPoint
                &&& node->path@ == self.path.unwrap()@
            },
            NodeShape::Neither => false,
        }
    }

    /// In every object below, and in this one, no child name occurs twice.
    pub open spec fn wf(self) -> bool
        decreases self,
    {
        &&& names_distinct(names_of(self.children@))
        &&& forall|i: int|
            0 <= i < self.children@.len() ==> (#[trigger] self.children@[i]).1.wf()
    }

    /// The kind of node that the object is.
    pub fn node_shape(&self) -> (shape: NodeShape)
        ensures
            shape == self.shape(),
    {
        if self.class_name.is_some() {
            if self.path.is_none() {
                NodeShape::Instance
            } else {
                NodeShape::Neither
            }
        } else if self.path.is_some() {
            NodeShape::SyncPoint
        } else {
            NodeShape::Neither
        }
    }

    /// The node that the object says, or `None` where it, or an object
    /// below it, is no node.
    pub fn into_source_node(self) -> (result: Option<SourceProjectNode>)
        ensures
            result is Some <==> self.is_tree(),
            result matches Some(node) ==> self.parses_as(node) && (self.wf() ==> node.wf()),
        decreases self,
    {
        let ghost whole = self;
        let shape = self.node_shape();
        let RawNode { class_name, path, properties, ignore_unknown, children } = self;
        match shape {
            NodeShape::Neither => None,
            NodeShape::SyncPoint => match path {
                Some(path) => Some(SourceProjectNode::SyncPoint { path }),
                None => None,
            },
            NodeShape::Instance => match class_name {
                Some(class_name) => {
                    let ghost given = children@;
                    assert forall|j: int| 0 <= j < given.len() implies decreases_to!(whole => (#[trigger] given[j]).1) by {
                        assert(given[j] == children[j]);
                        assert(decreases_to!(whole => children));
                        assert(decreases_to!(children => children[j]));
                        assert(decreases_to!(children[j] => children[j].1));
                    }
                    let mut nodes: Vec<(String, SourceProjectNode)> = Vec::new();
                    for entry in it: children
                        invariant
                            it.seq() == given,
                            given == whole.children@,
                            whole == self,
                            whole.shape() == NodeShape::Instance,
                            nodes@.len() == it.index(),
                            forall|j: int|
                                0 <= j < given.len() ==> decreases_to!(whole => (#[trigger] given[j]).1),
                            forall|j: int|
                                0 <= j < nodes@.len() ==> {
                                    &&& (#[trigger] given[j]).1.is_tree()
                                    &&& nodes@[j].0@ == given[j].0@
                                    &&& given[j].1.parses_as(nodes@[j].1)
                                },
                    {
                        assert(entry == given[it.index() as int]);
                        let (node_name, raw) = entry;
                        match raw.into_source_node() {
                            Some(node) => nodes.push((node_name, node)),
                            None => {
                                assert(!whole.children@[it.index() as int].1.is_tree());
                                return None;
                            },
                        }
                    }
                    let node = SourceProjectNode::Instance {
                        class_name,
                        properties,
                        ignore_unknown,
                        children: nodes,
                    };
                    proof {
                        if whole.wf() {
                            lemma_raw_distinct_names_are_kept(whole, node);
                        }
                    }
                    Some(node)
                },
                None => None,
            },
        }
    }
}

impl RawProject {
    /// `source` is what the descriptor says.
    pub open spec fn parses_as(self, source: SourceProject) -> bool {
        &&& source.name@ == self.name@
        &&& self.tree.parses_as(source.tree)
        &&& source.serve_port == self.serve_port
    }

    /// The descriptor with its tree told apart into instances and sync
    /// points, or `None` where some object of the tree is no node.
    pub fn into_source_project(self) -> (result: Option<SourceProject>)
        ensures
            result is Some <==> self.tree.is_tree(),
            result matches Some(source) ==> self.parses_as(source),
    {
        match self.tree.into_source_node() {
            Some(tree) => Some(SourceProject { name: self.name, tree, serve_port: self.serve_port }),
            None => None,
        }
    }
}

/// A tree of objects in which no object has two children of one name says a
/// tree of nodes of which the same holds.
pub proof fn lemma_raw_distinct_names_are_kept(raw: RawNode, node: SourceProjectNode)
    requires
        raw.parses_as(node),
        raw.wf(),
    ensures
        node.wf(),
    decreases raw,
{
    if raw.shape() == NodeShape::Instance {
        assert forall|i: int| 0 <= i < node->children@.len() implies (#[trigger] node->children@[i]).1.wf() by {
            assert(raw.children@[i].1.wf());
            lemma_raw_distinct_names_are_kept(raw.children@[i].1, node->children@[i].1);
        }
        assert(names_of(node->children@) =~= names_of(raw.children@)) by {
            assert forall|i: int| 0 <= i < raw.children@.len() implies names_of(node->children@)[i]
                == names_of(raw.children@)[i] by {
                assert(node->children@[i].0@ == raw.children@[i].0@);
            }
        }
    }
}

/// An object with a path and no class name is a sync point, whatever else
/// it holds.
pub proof fn lemma_path_alone_is_sync_point(raw: RawNode, node: SourceProjectNode)
    requires
        raw.path is Some,
        raw.class_name is None,
    ensures
        raw.is_tree(),
        raw.parses_as(node) ==> node is SyncPoint && node->path@ == raw.path.unwrap()@,
{
}

/// An object with a class name and no path is an instance with every other
/// key as a child, however many there are, as long as each child is a node.
pub proof fn lemma_class_name_is_instance(raw: RawNode, node: SourceProjectNode)
    requires
        raw.class_name is Some,
        raw.path is None,
        forall|i: int| 0 <= i < raw.children@.len() ==> (#[trigger] raw.children@[i]).1.is_tree(),
    ensures
        raw.is_tree(),
        raw.parses_as(node) ==> node is Instance && node.child_names() =~= names_of(
            raw.children@,
        ),
{
    if raw.parses_as(node) {
        assert forall|i: int| 0 <= i < raw.children@.len() implies node.child_names()[i]
            == names_of(raw.children@)[i] by {
            assert(node->children@[i].0@ == raw.children@[i].0@);
        }
    }
}

} // verus!
