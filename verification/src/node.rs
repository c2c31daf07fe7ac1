//! The pipeline tree: series and parallel groups with task leaves.

use vstd::prelude::*;
use crate::string_map::StringMap;

verus! {

/// What a pipeline node is: a group that runs its members one after the
/// other, a group that runs them side by side, or a single task.
#[derive(Debug)]
pub enum NodeType<'a, T, U> {
    Series(Vec<Node<'a, T, U>>),
    Parallel(Vec<Node<'a, T, U>>),
    Task,
}

/// One node of the pipeline tree.
#[derive(Debug)]
pub struct Node<'a, T, U> {
    /// The label of the node, if it has one.
    pub name: Option<&'a str>,
    /// Marks the entry point of a tree. The builders leave it unset.
    pub is_root_node: bool,
    pub ntype: NodeType<'a, T, U>,
    /// The unit of work that a task node runs. It is borrowed: one task
    /// value serves every leaf of a tree.
    pub task: Option<&'a U>,
    /// The configuration of a task node, by key.
    pub properties: StringMap<T>,
    /// Left unset by the builders.
    pub continue_on_fail: bool,
}

/// The model of a `NodeType`.
pub enum NodeTypeView<P> {
    Series(Seq<NodeView<P>>),
    Parallel(Seq<NodeView<P>>),
    Task,
}

/// The model of a `Node`: its texts as character sequences, its members as a
/// sequence of models, its properties as a map of property models. Of the
/// task it records only whether the node holds one; `Node::carries` says
/// which.
pub struct NodeView<P> {
    pub name: Option<Seq<char>>,
    pub is_root_node: bool,
    pub ntype: NodeTypeView<P>,
    pub has_task: bool,
    pub properties: Map<Seq<char>, P>,
    pub continue_on_fail: bool,
}

impl<P> NodeView<P> {
    /// Whether the tree under this node is laid out as the builders lay it
    /// out: every task leaf holds a task, no group holds a task or a
    /// property, and both flags are unset throughout.
    pub open spec fn as_built(self) -> bool
        decreases self,
    {
        &&& !self.is_root_node
        &&& !self.continue_on_fail
        &&& match self.ntype {
            NodeTypeView::Task => self.has_task,
            NodeTypeView::Series(members) => {
                &&& !self.has_task
                &&& self.properties == Map::<Seq<char>, P>::empty()
                &&& forall|i: int| 0 <= i < members.len() ==> (#[trigger] members[i]).as_built()
            },
            NodeTypeView::Parallel(members) => {
                &&& !self.has_task
                &&& self.properties == Map::<Seq<char>, P>::empty()
                &&& forall|i: int| 0 <= i < members.len() ==> (#[trigger] members[i]).as_built()
            },
        }
    }
}

/// The characters of an optional text.
pub open spec fn option_text(text: Option<&str>) -> Option<Seq<char>> {
    match text {
        Some(s) => Some(s@),
        None => None,
    }
}

/// The models of the first `n` of `nodes`, in order.
pub open spec fn node_views<T: View, U>(nodes: Seq<Node<'_, T, U>>, n: nat) -> Seq<NodeView<T::V>>
    decreases nodes, n,
{
    if n == 0 || n > nodes.len() {
        Seq::empty()
    } else {
        node_views(nodes, (n - 1) as nat).push(nodes[n - 1]@)
    }
}

/// The model of an optional node.
pub open spec fn option_node_view<T: View, U>(node: Option<Node<'_, T, U>>) -> Option<
    NodeView<T::V>,
> {
    match node {
        Some(n) => Some(n@),
        None => None,
    }
}

impl<'a, T: View, U> View for Node<'a, T, U> {
    type V = NodeView<T::V>;

    open spec fn view(&self) -> NodeView<T::V>
        decreases self,
    {
        NodeView {
            name: option_text(self.name),
            is_root_node: self.is_root_node,
            ntype: match self.ntype {
                NodeType::Series(members) => NodeTypeView::Series(
                    node_views(members@, members@.len()),
                ),
                NodeType::Parallel(members) => NodeTypeView::Parallel(
                    node_views(members@, members@.len()),
                ),
                NodeType::Task => NodeTypeView::Task,
            },
            has_task: self.task is Some,
            properties: self.properties@,
            continue_on_fail: self.continue_on_fail,
        }
    }
}

/// `node_views` lists one model for each node.
pub proof fn lemma_node_views<T: View, U>(nodes: Seq<Node<'_, T, U>>, n: nat)
    requires
        n <= nodes.len(),
    ensures
        node_views(nodes, n).len() == n,
        forall|i: int| 0 <= i < n ==> #[trigger] node_views(nodes, n)[i] == nodes[i]@,
    decreases n,
{
    if n > 0 {
        lemma_node_views(nodes, (n - 1) as nat);
        assert(node_views(nodes, n) == node_views(nodes, (n - 1) as nat).push(nodes[n - 1]@));
    }
}

/// Adding a node at the end adds its model at the end.
pub proof fn lemma_node_views_push<T: View, U>(nodes: Seq<Node<'_, T, U>>, node: Node<'_, T, U>)
    ensures
        node_views(nodes.push(node), nodes.len() + 1) == node_views(nodes, nodes.len()).push(node@),
{
    let longer = nodes.push(node);
    lemma_node_views(nodes, nodes.len());
    lemma_node_views(longer, longer.len());
}

impl<'a, T, U> Node<'a, T, U> {
    /// Whether every task that the tree under this node holds is `task`.
    pub open spec fn carries(&self, task: &U) -> bool
        decreases self,
    {
        &&& self.task matches Some(held) ==> held == task
        &&& match self.ntype {
            NodeType::Series(members) => forall|i: int|
                0 <= i < members.len() ==> (#[trigger] members[i]).carries(task),
            NodeType::Parallel(members) => forall|i: int|
                0 <= i < members.len() ==> (#[trigger] members[i]).carries(task),
            NodeType::Task => true,
        }
    }
}

} // verus!
