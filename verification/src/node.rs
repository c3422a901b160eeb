//! The canonical project tree.

use std::collections::HashMap;
use vstd::prelude::*;

verus! {

/// A property value of `rbx_tree`. The library carries such values through
/// and never looks inside them.
#[verifier::external_type_specification]
#[verifier::external_body]
pub struct ExRbxValue(rbx_tree::RbxValue);

/// The value of the ignore-unknown flag of an instance node that does not
/// set it.
pub fn yeah() -> (flag: bool)
    ensures
        flag,
{
    true
}

/// What an instance node says of how a later sync step treats it.
#[derive(Debug, Clone, PartialEq)]
pub struct InstanceProjectNodeMetadata {
    /// Whether children that the descriptor does not name are ignored
    /// rather than treated as an error.
    pub ignore_unknown: bool,
}

impl Default for InstanceProjectNodeMetadata {
    fn default() -> (metadata: InstanceProjectNodeMetadata)
        ensures
            metadata.ignore_unknown,
    {
        InstanceProjectNodeMetadata { ignore_unknown: yeah() }
    }
}

/// A node of the canonical tree.
#[derive(Debug, PartialEq)]
pub enum ProjectNode {
    Instance(InstanceProjectNode),
    SyncPoint(SyncPointProjectNode),
}

/// A named, typed object with properties and children. The children are
/// held in the order in which they were given; no name occurs twice in a
/// well-formed node.
#[derive(Debug, Clone, PartialEq)]
pub struct InstanceProjectNode {
    pub class_name: String,
    pub children: Vec<(String, ProjectNode)>,
    pub properties: HashMap<String, rbx_tree::RbxValue>,
    pub metadata: InstanceProjectNodeMetadata,
}

/// A place of the tree that is filled from the filesystem.
#[derive(Debug, Clone, PartialEq)]
pub struct SyncPointProjectNode {
    pub path: String,
}

/// The outline of a tree: which nodes are instances, and under which names
/// their children stand, in order.
pub enum Outline {
    Instance { children: Seq<(Seq<char>, Outline)> },
    SyncPoint,
}

/// The names in a list of named items, in order.
pub open spec fn names_of<T>(items: Seq<(String, T)>) -> Seq<Seq<char>> {
    Seq::new(items.len(), |i: int| items[i].0@)
}

/// No name occurs twice.
pub open spec fn names_distinct(names: Seq<Seq<char>>) -> bool {
    forall|i: int, j: int| 0 <= i < j < names.len() ==> names[i] != names[j]
}

impl Clone for ProjectNode {
    /// A copy of the tree below this node, child by child.
    fn clone(&self) -> (copy: ProjectNode)
        decreases self,
    {
        match self {
            ProjectNode::Instance(instance) => {
                let mut children: Vec<(String, ProjectNode)> = Vec::new();
                let mut i: usize = 0;
                while i < instance.children.len()
                    invariant
                        i <= instance.children.len(),
                        self matches ProjectNode::Instance(own) && own == instance,
                    decreases instance.children.len() - i,
                {
                    children.push((instance.children[i].0.clone(), instance.children[i].1.clone()));
                    i += 1;
                }
                ProjectNode::Instance(
                    InstanceProjectNode {
                        class_name: instance.class_name.clone(),
                        children,
                        properties: instance.properties.clone(),
                        metadata: instance.metadata.clone(),
                    },
                )
            },
            ProjectNode::SyncPoint(sync_point) => ProjectNode::SyncPoint(sync_point.clone()),
        }
    }
}

impl ProjectNode {
    /// The names of the node's children, in order; none for a sync point.
    pub open spec fn child_names(self) -> Seq<Seq<char>> {
        match self {
            ProjectNode::Instance(instance) => names_of(instance.children@),
            ProjectNode::SyncPoint(_) => Seq::empty(),
        }
    }

    /// The outline of the tree below this node.
    pub open spec fn outline(self) -> Outline
        decreases self,
    {
        match self {
            ProjectNode::Instance(instance) => Outline::Instance {
                children: Seq::new(
                    instance.children@.len(),
                    |i: int|
                        if 0 <= i < instance.children@.len() {
                            (instance.children@[i].0@, instance.children@[i].1.outline())
                        } else {
                            (Seq::empty(), Outline::SyncPoint)
                        },
                ),
            },
            ProjectNode::SyncPoint(_) => Outline::SyncPoint,
        }
    }

    /// In every instance node below, and in this one, no child name occurs
    /// twice.
    pub open spec fn wf(self) -> bool
        decreases self,
    {
        match self {
            ProjectNode::Instance(instance) => {
                &&& names_distinct(names_of(instance.children@))
                &&& forall|i: int|
                    0 <= i < instance.children@.len() ==> (#[trigger] instance.children@[i]).1.wf()
            },
            ProjectNode::SyncPoint(_) => true,
        }
    }
}

} // verus!
