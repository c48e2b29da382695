//! Query plans: the tree of subgraph calls that answers one operation.

use vstd::prelude::*;

verus! {

/// The kind of a GraphQL operation.
#[derive(Clone, Copy, Debug, PartialEq, Eq, Hash, Structural)]
pub enum OperationKind {
    /// A read.
    Query,
    /// A write.
    Mutation,
    /// A stream of results.
    Subscription,
}

/// A call to one subgraph.
#[derive(Debug, PartialEq, Eq)]
pub struct FetchNode {
    /// The subgraph that is called.
    pub service_name: String,
    /// The operation sent to the subgraph.
    pub operation: String,
    /// The kind of that operation.
    pub operation_kind: OperationKind,
}

/// A node of a query plan.
#[derive(Debug, PartialEq, Eq)]
pub enum PlanNode {
    /// The nodes are run one after the other.
    Sequence { nodes: Vec<PlanNode> },
    /// The nodes are run side by side.
    Parallel { nodes: Vec<PlanNode> },
    /// One subgraph is called.
    Fetch(FetchNode),
}

impl PlanNode {
    /// Whether some fetch node of the tree declares a mutation.
    pub open spec fn spec_contains_mutations(&self) -> bool
        decreases self,
    {
        match self {
            PlanNode::Sequence { nodes } => any_contains_mutations(nodes@),
            PlanNode::Parallel { nodes } => any_contains_mutations(nodes@),
            PlanNode::Fetch(fetch) => fetch.operation_kind == OperationKind::Mutation,
        }
    }

    /// Whether some fetch node of the tree declares a mutation.
    #[verifier::when_used_as_spec(spec_contains_mutations)]
    pub fn contains_mutations(&self) -> (found: bool)
        ensures
            found == self.spec_contains_mutations(),
        decreases self,
    {
        match self {
            PlanNode::Sequence { nodes } => any_node_contains_mutations(nodes),
            PlanNode::Parallel { nodes } => any_node_contains_mutations(nodes),
            PlanNode::Fetch(fetch) => fetch.operation_kind == OperationKind::Mutation,
        }
    }
}

/// Whether the tree of some node among `nodes` holds a mutation.
pub open spec fn any_contains_mutations(nodes: Seq<PlanNode>) -> bool
    decreases nodes,
{
    exists|i: int| 0 <= i < nodes.len() && (#[trigger] nodes[i]).spec_contains_mutations()
}

/// Whether the tree of some node among `nodes` holds a mutation.
pub fn any_node_contains_mutations(nodes: &Vec<PlanNode>) -> (found: bool)
    ensures
        found == any_contains_mutations(nodes@),
    decreases nodes,
{
    let mut index: usize = 0;
    while index < nodes.len()
        invariant
            index <= nodes.len(),
            forall|i: int| 0 <= i < index ==> !(#[trigger] nodes@[i]).spec_contains_mutations(),
        decreases nodes.len() - index,
    {
        if nodes[index].contains_mutations() {
            return true;
        }
        index += 1;
    }
    false
}

/// The plan for one operation.
#[derive(Debug, PartialEq, Eq)]
pub struct QueryPlan {
    /// The root of the plan's tree.
    pub root: PlanNode,
}

impl QueryPlan {
    /// Whether the plan holds a mutation: some fetch node declares one.
    pub open spec fn spec_contains_mutations(&self) -> bool {
        self.root.spec_contains_mutations()
    }

    /// Whether the plan holds a mutation: some fetch node declares one.
    #[verifier::when_used_as_spec(spec_contains_mutations)]
    pub fn contains_mutations(&self) -> (found: bool)
        ensures
            found == self.spec_contains_mutations(),
    {
        self.root.contains_mutations()
    }
}

} // verus!
