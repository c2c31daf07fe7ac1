//! Builds a pipeline tree (series and parallel groups with task leaves) from
//! a document of scalars, sequences and mappings.
//!
//! A document format takes part by implementing [`Parser`]: it says what kind
//! of node a document node is, how its members are collected and how a task
//! leaf is made of it; [`Parser::make_node`] puts the tree together.

pub mod keywords;
pub mod node;
pub mod parsers;
pub mod string_map;
pub mod text;

use vstd::prelude::*;
use crate::keywords::KeywordsView;
use crate::node::{node_views, option_node_view, option_text, Node, NodeType, NodeTypeView, NodeView};
use crate::string_map::StringMap;

pub use crate::ParserNodeType::{
    ParserNodeTypeKnown, ParserNodeTypeParallel, ParserNodeTypeSeries, ParserNodeTypeTask,
};

verus! {

/// The role of a document node in a pipeline. A known node carries
/// configuration that is kept outside the tree.
#[derive(PartialEq, Eq, Structural, Copy, Clone, Debug)]
pub enum ParserNodeType {
    ParserNodeTypeSeries,
    ParserNodeTypeParallel,
    ParserNodeTypeTask,
    ParserNodeTypeKnown,
}

/// The model of a group node: it has the given label and members, no task,
/// no properties, and both flags unset.
pub open spec fn group_view<P>(name: Option<Seq<char>>, ntype: NodeTypeView<P>) -> NodeView<P> {
    NodeView {
        name,
        is_root_node: false,
        ntype,
        has_task: false,
        properties: Map::empty(),
        continue_on_fail: false,
    }
}

/// The node that a document node of kind `node_type` makes, given its
/// label, the members it has as a group of that kind, and the leaf it makes
/// as a task. A series or parallel node makes a group of its members, a
/// task node makes its leaf, and a known node makes nothing.
pub open spec fn assemble<P>(
    node_type: ParserNodeType,
    name: Option<Seq<char>>,
    members: Seq<NodeView<P>>,
    leaf: Option<NodeView<P>>,
) -> Option<NodeView<P>> {
    match node_type {
        ParserNodeType::ParserNodeTypeSeries => Some(group_view(name, NodeTypeView::Series(members))),
        ParserNodeType::ParserNodeTypeParallel => Some(
            group_view(name, NodeTypeView::Parallel(members)),
        ),
        ParserNodeType::ParserNodeTypeTask => leaf,
        ParserNodeType::ParserNodeTypeKnown => None,
    }
}

/// A document node that can be turned into a pipeline node whose properties
/// are of type `T`.
///
/// An implementation names, by its spec functions, the keywords of its
/// format and what its node is: its kind, its label, its members and its
/// task leaf. The executable methods compute these, and `make_node`
/// assembles the pipeline node.
pub trait Parser<T: Send + Sync + Clone + View> {
    /// The keywords of the format.
    spec fn vocabulary(&self) -> KeywordsView;

    /// The kind of this node.
    spec fn node_type(&self) -> ParserNodeType;

    /// The label of this node, if it has one.
    spec fn node_name(&self) -> Option<Seq<char>>;

    /// The task leaf that this node makes, if it makes one.
    spec fn task_node(&self) -> Option<NodeView<T::V>>;

    /// The pipeline nodes that the members of this node make, taken as a
    /// group of kind `node_type`.
    spec fn node_vec(&self, node_type: ParserNodeType) -> Seq<NodeView<T::V>>;

    fn get_node_type(&self) -> (node_type: ParserNodeType)
        ensures
            node_type == self.node_type(),
    ;

    /// Makes the task leaf of this node; the leaf holds `task`.
    fn create_task_node<'a, U>(&'a self, task: &'a U) -> (node: Option<Node<'a, T, U>>)
        ensures
            option_node_view(node) == self.task_node(),
            node matches Some(n) ==> n.carries(task),
    ;

    /// Makes the pipeline nodes of the members of this node. Only a series
    /// or a parallel group has members.
    fn collect_node_vec<'a, U>(&'a self, task: &'a U, node_type: ParserNodeType) -> (nodes: Vec<
        Node<'a, T, U>,
    >)
        requires
            node_type == ParserNodeType::ParserNodeTypeSeries || node_type
                == ParserNodeType::ParserNodeTypeParallel,
        ensures
            node_views(nodes@, nodes@.len()) == self.node_vec(node_type),
            forall|i: int| 0 <= i < nodes.len() ==> (#[trigger] nodes[i]).carries(task),
    ;

    /// The key that labels a node: `name`, unless the format has a word of
    /// its own.
    fn kwd_name(&self) -> (word: &str)
        ensures
            word@ == "name"@ || word@ == self.vocabulary().name,
    {
        "name"
    }

    /// The key that holds the members of a series: `series`, unless the
    /// format has a word of its own.
    fn kwd_series(&self) -> (word: &str)
        ensures
            word@ == "series"@ || word@ == self.vocabulary().series,
    {
        "series"
    }

    /// The key that holds the members of a parallel group: `parallel`,
    /// unless the format has a word of its own.
    fn kwd_parallel(&self) -> (word: &str)
        ensures
            word@ == "parallel"@ || word@ == self.vocabulary().parallel,
    {
        "parallel"
    }

    /// The key that marks a task: `task`, unless the format has a word of
    /// its own.
    fn kwd_task(&self) -> (word: &str)
        ensures
            word@ == "task"@ || word@ == self.vocabulary().task,
    {
        "task"
    }

    fn get_node_name<'a>(&'a self) -> (name: Option<&'a str>)
        ensures
            option_text(name) == self.node_name(),
    ;

    /// Makes the pipeline node of this document node: a group with its
    /// members for a series or a parallel node, the task leaf for a task
    /// node, nothing for a known node. Every task in it is `task`.
    fn make_node<'a, U>(&'a self, task: &'a U) -> (node: Option<Node<'a, T, U>>)
        ensures
            option_node_view(node) == assemble(
                self.node_type(),
                self.node_name(),
                self.node_vec(self.node_type()),
                self.task_node(),
            ),
            node matches Some(n) ==> n.carries(task),
    {
        let node_type = self.get_node_type();
        match node_type {
            ParserNodeType::ParserNodeTypeSeries => {
                let name = self.get_node_name();
                let node_vec = self.collect_node_vec(task, node_type);
                Some(
                    Node {
                        name,
                        is_root_node: false,
                        ntype: NodeType::Series(node_vec),
                        task: None,
                        properties: StringMap::new(),
                        continue_on_fail: false,
                    },
                )
            },
            ParserNodeType::ParserNodeTypeParallel => {
                let name = self.get_node_name();
                let node_vec = self.collect_node_vec(task, node_type);
                Some(
                    Node {
                        name,
                        is_root_node: false,
                        ntype: NodeType::Parallel(node_vec),
                        task: None,
                        properties: StringMap::new(),
                        continue_on_fail: false,
                    },
                )
            },
            ParserNodeType::ParserNodeTypeTask => self.create_task_node(task),
            // A known node is kept out of the tree: what it holds is shared
            // by the whole pipeline, not by one branch of it.
            ParserNodeType::ParserNodeTypeKnown => None,
        }
    }
}

} // verus!
