//! The tree as a descriptor writes it, and its normalization.
//!
//! A descriptor may leave out an instance's properties and its
//! ignore-unknown flag, and may give a sync point's path relative to the
//! folder that holds the descriptor. Normalization fills in the defaults and
//! resolves the paths.

use crate::node::{
    names_distinct, names_of, yeah, Outline, InstanceProjectNode, InstanceProjectNodeMetadata, ProjectNode,
    SyncPointProjectNode,
};
use crate::paths::{is_absolute, join, parent_of, path_is_absolute, path_join, path_parent};
use std::collections::HashMap;
use vstd::prelude::*;

verus! {

/// A node as the descriptor writes it.
#[derive(Debug)]
pub enum SourceProjectNode {
    Instance {
        class_name: String,
        /// `None` where the descriptor gives no properties.
        properties: Option<HashMap<String, rbx_tree::RbxValue>>,
        /// `None` where the descriptor does not set the flag.
        ignore_unknown: Option<bool>,
        children: Vec<(String, SourceProjectNode)>,
    },
    SyncPoint {
        /// Absolute, or relative to the folder of the descriptor.
        path: String,
    },
}

/// Where a sync point's `path` lies, for a descriptor at `location`: the
/// path itself if it is absolute, else the path adjoined to the folder that
/// holds the descriptor.
pub open spec fn resolved_path(path: Seq<char>, location: Seq<char>) -> Seq<char> {
    if path_is_absolute(path) {
        path
    } else {
        path_join(path_parent(location).unwrap(), path)
    }
}

/// The ignore-unknown flag of an instance whose descriptor gives `flag`.
pub open spec fn flag_or_default(flag: Option<bool>) -> bool {
    match flag {
        Some(value) => value,
        None => true,
    }
}

/// `given` are the properties `found` of an instance, or `found` is empty
/// where none are given.
pub open spec fn properties_or_default(
    given: Option<HashMap<String, rbx_tree::RbxValue>>,
    found: HashMap<String, rbx_tree::RbxValue>,
) -> bool {
    match given {
        Some(properties) => found == properties,
        None => found@ == Map::<String, rbx_tree::RbxValue>::empty(),
    }
}

impl SourceProjectNode {
    /// Some sync point of the tree has a relative path, so that the tree
    /// can only be normalized for a descriptor that lies in a folder.
    pub open spec fn needs_folder(self) -> bool
        decreases self,
    {
        match self {
            SourceProjectNode::Instance { children, .. } => exists|i: int|
                0 <= i < children@.len() && (#[trigger] children@[i]).1.needs_folder(),
            SourceProjectNode::SyncPoint { path } => !path_is_absolute(path@),
        }
    }

    /// The names of the node's children, in order; none for a sync point.
    pub open spec fn child_names(self) -> Seq<Seq<char>> {
        match self {
            SourceProjectNode::Instance { children, .. } => names_of(children@),
            SourceProjectNode::SyncPoint { .. } => Seq::empty(),
        }
    }

    /// The outline of the tree below this node.
    pub open spec fn outline(self) -> Outline
        decreases self,
    {
        match self {
            SourceProjectNode::Instance { children, .. } => Outline::Instance {
                children: Seq::new(
                    children@.len(),
                    |i: int|
                        if 0 <= i < children@.len() {
                            (children@[i].0@, children@[i].1.outline())
                        } else {
                            (Seq::empty(), Outline::SyncPoint)
                        },
                ),
            },
            SourceProjectNode::SyncPoint { .. } => Outline::SyncPoint,
        }
    }

    /// In every instance node below, and in this one, no child name occurs
    /// twice.
    pub open spec fn wf(self) -> bool
        decreases self,
    {
        match self {
            SourceProjectNode::Instance { children, .. } => {
                &&& names_distinct(names_of(children@))
                &&& forall|i: int|
                    0 <= i < children@.len() ==> (#[trigger] children@[i]).1.wf()
            },
            SourceProjectNode::SyncPoint { .. } => true,
        }
    }

    /// `node` is this node, normalized for a descriptor at `location`: the
    /// same kind of node, with the same class name and the same children
    /// under the same names, each normalized in turn; properties and flag as
    /// given or else by default; a sync point's path resolved.
    pub open spec fn normalizes_to(self, location: Seq<char>, node: ProjectNode) -> bool
        decreases self,
    {
        match (self, node) {
            (
                SourceProjectNode::Instance { class_name, properties, ignore_unknown, children },
                ProjectNode::Instance(instance),
            ) => {
                &&& instance.class_name@ == class_name@
                &&& properties_or_default(properties, instance.properties)
                &&& instance.metadata.ignore_unknown == flag_or_default(ignore_unknown)
                &&& instance.children@.len() == children@.len()
                &&& forall|i: int|
                    0 <= i < children@.len() ==> {
                        &&& instance.children@[i].0@ == (#[trigger] children@[i]).0@
                        &&& children@[i].1.normalizes_to(location, instance.children@[i].1)
                    }
            },
            (SourceProjectNode::SyncPoint { path }, ProjectNode::SyncPoint(sync_point)) => {
                sync_point.path@ == resolved_path(path@, location)
            },
            _ => false,
        }
    }

    /// Whether some sync point of the tree has a relative path.
    pub fn has_relative_path(&self) -> (relative: bool)
        ensures
            relative == self.needs_folder(),
        decreases self,
    {
        match self {
            SourceProjectNode::Instance { children, .. } => {
                let mut i: usize = 0;
                while i < children.len()
                    invariant
                        i <= children.len(),
                        self matches SourceProjectNode::Instance { children: own, .. } && own
                            == children,
                        forall|j: int| 0 <= j < i ==> !(#[trigger] children@[j]).1.needs_folder(),
                    decreases children.len() - i,
                {
                    if children[i].1.has_relative_path() {
                        return true;
                    }
                    i += 1;
                }
                false
            },
            SourceProjectNode::SyncPoint { path } => !is_absolute(path.as_str()),
        }
    }

    /// Normalizes the node for a descriptor at `project_file_location`.
    pub fn into_project_node(self, project_file_location: &str) -> (node: ProjectNode)
        requires
            self.needs_folder() ==> path_parent(project_file_location@).is_some(),
        ensures
            self.normalizes_to(project_file_location@, node),
            self.wf() ==> node.wf(),
        decreases self,
    {
        let ghost whole = self;
        let node = match self {
            SourceProjectNode::Instance { class_name, properties, ignore_unknown, children } => {
                let ghost given = children@;
                assert forall|j: int| 0 <= j < given.len() implies decreases_to!(whole => (#[trigger] given[j]).1) by {
                    assert(given[j] == children[j]);
                    assert(decreases_to!(whole => children));
                    assert(decreases_to!(children => children[j]));
                    assert(decreases_to!(children[j] => children[j].1));
                }
                let mut new_children: Vec<(String, ProjectNode)> = Vec::new();
                for entry in it: children
                    invariant
                        it.seq() == given,
                        new_children@.len() == it.index(),
                        whole == self,
                        forall|j: int|
                            0 <= j < given.len() ==> decreases_to!(whole => (#[trigger] given[j]).1),
                        forall|j: int|
                            0 <= j < given.len() && (#[trigger] given[j]).1.needs_folder()
                                ==> path_parent(project_file_location@).is_some(),
                        forall|j: int|
                            0 <= j < new_children@.len() ==> {
                                &&& new_children@[j].0@ == (#[trigger] given[j]).0@
                                &&& given[j].1.normalizes_to(
                                    project_file_location@,
                                    new_children@[j].1,
                                )
                            },
                {
                    assert(entry == given[it.index() as int]);
                    let (node_name, node) = entry;
                    let new_node = node.into_project_node(project_file_location);
                    new_children.push((node_name, new_node));
                }
                let new_properties = match properties {
                    Some(given_properties) => given_properties,
                    None => HashMap::new(),
                };
                let flag = match ignore_unknown {
                    Some(value) => value,
                    None => yeah(),
                };
                ProjectNode::Instance(
                    InstanceProjectNode {
                        class_name,
                        children: new_children,
                        properties: new_properties,
                        metadata: InstanceProjectNodeMetadata { ignore_unknown: flag },
                    },
                )
            },
            SourceProjectNode::SyncPoint { path: source_path } => {
                let path = if is_absolute(source_path.as_str()) {
                    source_path
                } else {
                    match parent_of(project_file_location) {
                        Some(project_folder_location) => join(
                            project_folder_location.as_str(),
                            source_path.as_str(),
                        ),
                        // A relative path without a folder: the precondition
                        // leaves it out.
                        None => source_path,
                    }
                };
                ProjectNode::SyncPoint(SyncPointProjectNode { path })
            },
        };
        proof {
            if whole.wf() {
                lemma_distinct_names_are_kept(whole, project_file_location@, node);
            }
        }
        node
    }
}

/// A sync point with a relative path lies, once normalized, in the folder
/// of the descriptor, under that path.
pub proof fn lemma_relative_path_joins_folder(
    source: SourceProjectNode,
    location: Seq<char>,
    node: ProjectNode,
)
    requires
        source.normalizes_to(location, node),
        source matches SourceProjectNode::SyncPoint { path } && !path_is_absolute(path@),
        path_parent(location) is Some,
    ensures
        node matches ProjectNode::SyncPoint(sync_point) && sync_point.path@ == path_join(
            path_parent(location).unwrap(),
            source->SyncPoint_path@,
        ),
{
}

/// A sync point with an absolute path keeps that path, wherever the
/// descriptor lies.
pub proof fn lemma_absolute_path_is_kept(
    source: SourceProjectNode,
    location: Seq<char>,
    node: ProjectNode,
)
    requires
        source.normalizes_to(location, node),
        source matches SourceProjectNode::SyncPoint { path } && path_is_absolute(path@),
    ensures
        node matches ProjectNode::SyncPoint(sync_point) && sync_point.path@
            == source->SyncPoint_path@,
{
}

/// An instance that does not set the ignore-unknown flag has it set once
/// normalized, and one that gives no properties has none.
pub proof fn lemma_defaults_are_filled_in(
    source: SourceProjectNode,
    location: Seq<char>,
    node: ProjectNode,
)
    requires
        source.normalizes_to(location, node),
        source is Instance,
    ensures
        node is Instance,
        source->Instance_ignore_unknown is None ==> node->Instance_0.metadata.ignore_unknown,
        source->Instance_properties is None ==> node->Instance_0.properties@
            == Map::<String, rbx_tree::RbxValue>::empty(),
{
}

/// Normalization keeps the outline of the tree: every node stays an
/// instance or a sync point, and every instance keeps its children under
/// their names, in their order, at every depth.
pub proof fn lemma_outline_is_kept(
    source: SourceProjectNode,
    location: Seq<char>,
    node: ProjectNode,
)
    requires
        source.normalizes_to(location, node),
    ensures
        node.outline() == source.outline(),
        node.child_names() == source.child_names(),
    decreases source,
{
    match (source, node) {
        (SourceProjectNode::Instance { children, .. }, ProjectNode::Instance(instance)) => {
            assert forall|i: int| 0 <= i < children@.len() implies (#[trigger] children@[i]).1.outline()
                == instance.children@[i].1.outline() by {
                lemma_outline_is_kept(children@[i].1, location, instance.children@[i].1);
            }
            assert(node.outline()->Instance_children =~= source.outline()->Instance_children);
            assert(node.child_names() =~= source.child_names());
        },
        _ => {},
    }
}

/// Normalization of a tree in which no instance has two children of one
/// name gives such a tree.
pub proof fn lemma_distinct_names_are_kept(
    source: SourceProjectNode,
    location: Seq<char>,
    node: ProjectNode,
)
    requires
        source.normalizes_to(location, node),
        source.wf(),
    ensures
        node.wf(),
    decreases source,
{
    match (source, node) {
        (SourceProjectNode::Instance { children, .. }, ProjectNode::Instance(instance)) => {
            assert forall|i: int| 0 <= i < instance.children@.len() implies (
            #[trigger] instance.children@[i]).1.wf() by {
                assert(children@[i].1.wf());
                lemma_distinct_names_are_kept(children@[i].1, location, instance.children@[i].1);
            }
            assert(names_of(instance.children@) =~= names_of(children@)) by {
                assert forall|i: int| 0 <= i < children@.len() implies names_of(
                    instance.children@,
                )[i] == names_of(children@)[i] by {
                    assert(instance.children@[i].0@ == children@[i].0@);
                }
            }
        },
        _ => {},
    }
}

} // verus!
