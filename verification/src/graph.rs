//! A directed graph walked depth-first. Each node carries a visiting state;
//! the walk records every step it takes in a log, so that the traversal can
//! be replayed. The walk is proved to terminate, to leave every node it
//! touches visited, and never to lose a step already logged.

use vstd::prelude::*;
use vstd::seq_lib::*;

verus! {

/// Where a node stands in the traversal.
#[derive(Clone, Copy, Debug, PartialEq, Eq, Structural)]
pub enum NodeState {
    NotVisited,
    Queued,
    Visited,
}

/// A recorded change of one node's state.
#[derive(Clone, Copy, Debug, PartialEq, Eq, Structural)]
pub struct NodeStep {
    pub node: usize,
    pub state: NodeState,
}

impl NodeStep {
    /// Records that `node` moved to `state`.
    pub fn new(node: usize, state: NodeState) -> (s: NodeStep)
        ensures
            s.node == node,
            s.state == state,
    {
        NodeStep { node, state }
    }
}

/// A recorded crossing of one edge.
#[derive(Clone, Copy, Debug, PartialEq, Eq, Structural)]
pub struct EdgeStep {
    pub edge: usize,
}

impl EdgeStep {
    /// Records that the edge with this id was crossed.
    pub fn new(edge: usize) -> (s: EdgeStep)
        ensures
            s.edge == edge,
    {
        EdgeStep { edge }
    }
}

/// One step of the traversal: either a node changed state or an edge was
/// crossed.
#[derive(Clone, Copy, Debug, PartialEq, Eq, Structural)]
pub enum AlgorithmStep {
    Node(NodeStep),
    Edge(EdgeStep),
}

/// A directed graph. Each node holds its state; each outgoing edge carries
/// the id it was given when added, together with its target.
pub struct Graph {
    states: Vec<NodeState>,
    adjacency: Vec<Vec<(usize, usize)>>,
    edge_count: usize,
}

impl Graph {
    /// The node states, for contracts.
    pub closed spec fn states(&self) -> Seq<NodeState> {
        self.states@
    }

    /// The outgoing edges of each node, for contracts: pairs of edge id and
    /// target node.
    pub closed spec fn adjacency(&self) -> Seq<Seq<(usize, usize)>> {
        self.adjacency@.map_values(|row: Vec<(usize, usize)>| row@)
    }

    /// The number of edges added so far, for contracts.
    pub closed spec fn spec_edge_count(&self) -> usize {
        self.edge_count
    }

    /// Every node has an edge row, and every edge points at a node.
    pub open spec fn well_formed(&self) -> bool {
        &&& self.adjacency().len() == self.states().len()
        &&& forall|i: int, j: int|
            0 <= i < self.adjacency().len() && 0 <= j < self.adjacency()[i].len()
                ==> #[trigger] self.adjacency()[i][j].1 < self.states().len()
    }

    /// An empty graph.
    pub fn new() -> (g: Graph)
        ensures
            g.well_formed(),
            g.states().len() == 0,
            g.spec_edge_count() == 0,
    {
        Graph { states: Vec::new(), adjacency: Vec::new(), edge_count: 0 }
    }

    /// The number of nodes.
    pub fn node_count(&self) -> (n: usize)
        ensures
            n == self.states().len(),
    {
        self.states.len()
    }

    /// Adds a node, not yet visited, and returns its index.
    pub fn add_node(&mut self) -> (idx: usize)
        requires
            old(self).well_formed(),
            old(self).states().len() < usize::MAX,
        ensures
            final(self).well_formed(),
            idx == old(self).states().len(),
            final(self).states() == old(self).states().push(NodeState::NotVisited),
            final(self).adjacency() == old(self).adjacency().push(Seq::<(usize, usize)>::empty()),
            final(self).spec_edge_count() == old(self).spec_edge_count(),
    {
        let idx = self.states.len();
        self.states.push(NodeState::NotVisited);
        self.adjacency.push(Vec::new());
        proof {
            assert(final(self).adjacency() =~= old(self).adjacency().push(
                Seq::<(usize, usize)>::empty(),
            ));
        }
        idx
    }

    /// Adds a directed edge from `from` to `to` and returns its id, the next
    /// unused one.
    pub fn add_edge(&mut self, from: usize, to: usize) -> (id: usize)
        requires
            old(self).well_formed(),
            from < old(self).states().len(),
            to < old(self).states().len(),
            old(self).spec_edge_count() < usize::MAX,
            old(self).adjacency()[from as int].len() < usize::MAX,
        ensures
            final(self).well_formed(),
            id == old(self).spec_edge_count(),
            final(self).spec_edge_count() == old(self).spec_edge_count() + 1,
            final(self).states() == old(self).states(),
            final(self).adjacency() == old(self).adjacency().update(
                from as int,
                old(self).adjacency()[from as int].push((id, to)),
            ),
    {
        let id = self.edge_count;
        self.edge_count = self.edge_count + 1;
        let row = &mut self.adjacency[from];
        row.push((id, to));
        proof {
            assert(final(self).adjacency() =~= old(self).adjacency().update(
                from as int,
                old(self).adjacency()[from as int].push((id, to)),
            ));
        }
        id
    }

    /// The state of the node at `index`.
    pub fn get_state(&self, index: usize) -> (s: NodeState)
        requires
            index < self.states().len(),
        ensures
            s == self.states()[index as int],
    {
        self.states[index]
    }

    /// Moves the node at `index` to `state`; nothing else changes.
    pub fn set_state(&mut self, index: usize, state: NodeState)
        requires
            index < old(self).states().len(),
        ensures
            final(self).states() == old(self).states().update(index as int, state),
            final(self).adjacency() == old(self).adjacency(),
            final(self).spec_edge_count() == old(self).spec_edge_count(),
            old(self).well_formed() ==> final(self).well_formed(),
    {
        self.states[index] = state;
    }

    /// How many edges leave the node at `index`.
    pub fn neighbor_count(&self, index: usize) -> (n: usize)
        requires
            self.well_formed(),
            index < self.states().len(),
        ensures
            n == self.adjacency()[index as int].len(),
    {
        self.adjacency[index].len()
    }

    /// The `j`-th outgoing edge of the node at `index`: its id and its
    /// target.
    pub fn neighbor(&self, index: usize, j: usize) -> (e: (usize, usize))
        requires
            self.well_formed(),
            index < self.states().len(),
            j < self.adjacency()[index as int].len(),
        ensures
            e == self.adjacency()[index as int][j as int],
            e.1 < self.states().len(),
    {
        self.adjacency[index][j]
    }
}

/// How many nodes are still untouched.
pub open spec fn count_not_visited(s: Seq<NodeState>) -> nat
    decreases s.len(),
{
    if s.len() == 0 {
        0
    } else {
        not_visited_weight(s[0]) + count_not_visited(s.subrange(1, s.len() as int))
    }
}

/// What one node contributes to the count of untouched nodes.
pub open spec fn not_visited_weight(s: NodeState) -> nat {
    if s is NotVisited {
        1
    } else {
        0
    }
}

/// The second component of the termination measure: an untouched node ranks
/// below a touched one, because queueing it pays for the call.
pub open spec fn visit_rank(s: NodeState) -> int {
    if s is NotVisited {
        0
    } else {
        1
    }
}

/// Changing one node's state moves the count of untouched nodes by exactly
/// the difference of the two weights.
proof fn lemma_count_update(s: Seq<NodeState>, i: int, v: NodeState)
    requires
        0 <= i < s.len(),
    ensures
        count_not_visited(s.update(i, v)) + not_visited_weight(s[i]) == count_not_visited(s)
            + not_visited_weight(v),
    decreases s.len(),
{
    let su = s.update(i, v);
    if i == 0 {
        assert(su.subrange(1, su.len() as int) =~= s.subrange(1, s.len() as int));
    } else {
        assert(su.subrange(1, su.len() as int) =~= s.subrange(1, s.len() as int).update(i - 1, v));
        lemma_count_update(s.subrange(1, s.len() as int), i - 1, v);
    }
}

/// A walk never revives a node: it can only leave a state alone or move an
/// untouched node to visited, so the count of untouched nodes cannot grow.
proof fn lemma_count_not_visited_le(s1: Seq<NodeState>, s2: Seq<NodeState>)
    requires
        s1.len() == s2.len(),
        forall|i: int|
            0 <= i < s1.len() ==> (s2[i] == s1[i] || (s1[i] is NotVisited
                && s2[i] is Visited)),
    ensures
        count_not_visited(s2) <= count_not_visited(s1),
    decreases s1.len(),
{
    if s1.len() > 0 {
        assert(s1.subrange(1, s1.len() as int).len() == s2.subrange(1, s2.len() as int).len());
        lemma_count_not_visited_le(s1.subrange(1, s1.len() as int), s2.subrange(1, s2.len() as int));
    }
}

/// The log of a traversal: every step, in the order it was taken.
pub struct StepLog {
    steps: Vec<AlgorithmStep>,
}

impl StepLog {
    /// The recorded steps, for contracts.
    pub closed spec fn steps(&self) -> Seq<AlgorithmStep> {
        self.steps@
    }

    /// An empty log.
    pub fn new() -> (log: StepLog)
        ensures
            log.steps().len() == 0,
    {
        StepLog { steps: Vec::new() }
    }

    /// Appends one step to the log.
    pub fn add_step(&mut self, step: AlgorithmStep)
        ensures
            final(self).steps() == old(self).steps().push(step),
    {
        self.steps.push(step);
    }

    /// Reads the recorded step at `i`.
    pub fn step_at(&self, i: usize) -> (s: AlgorithmStep)
        requires
            i < self.steps().len(),
        ensures
            s == self.steps()[i as int],
    {
        self.steps[i]
    }

    /// How many steps were recorded.
    pub fn len(&self) -> (n: usize)
        ensures
            n == self.steps().len(),
    {
        self.steps.len()
    }

    /// Walks the graph depth-first from `node_index`, logging each step.
    /// The node is queued, every outgoing edge to an untouched node is
    /// followed the same way, and the node is then marked visited. The walk
    /// ends with `node_index` visited and none of its direct successors
    /// left untouched; every other node either keeps its state or moves
    /// from untouched to visited; the edges stay as they were; and the log
    /// keeps what it held, framed by the queueing and visiting steps of
    /// `node_index`.
    ///
    /// Termination: each recursive call is made on an untouched node after
    /// this one was queued, so the count of untouched nodes, paired with
    /// whether the current node is still untouched, shrinks.
    pub fn dfs_helper(&mut self, graph: &mut Graph, node_index: usize)
        requires
            old(graph).well_formed(),
            node_index < old(graph).states().len(),
        ensures
            final(graph).well_formed(),
            final(graph).states().len() == old(graph).states().len(),
            final(graph).adjacency() == old(graph).adjacency(),
            final(graph).spec_edge_count() == old(graph).spec_edge_count(),
            final(graph).states()[node_index as int] is Visited,
            forall|i: int|
                0 <= i < old(graph).states().len() && i != node_index
                    ==> (final(graph).states()[i] == old(graph).states()[i]
                    || (old(graph).states()[i] is NotVisited
                    && final(graph).states()[i] is Visited)),
            forall|k: int|
                0 <= k < old(graph).adjacency()[node_index as int].len()
                    ==> !(final(graph).states()[old(graph).adjacency()[node_index as int][k].1 as int] is NotVisited),
            old(self).steps().is_prefix_of(final(self).steps()),
            final(self).steps().len() > old(self).steps().len() + 1,
            final(self).steps()[old(self).steps().len() as int] == (AlgorithmStep::Node(
                NodeStep { node: node_index, state: NodeState::Queued },
            )),
            final(self).steps().last() == (AlgorithmStep::Node(
                NodeStep { node: node_index, state: NodeState::Visited },
            )),
        decreases count_not_visited(old(graph).states()), visit_rank(
            old(graph).states()[node_index as int],
        ),
    {
        let ghost pre = graph.states();
        let ghost steps_pre = self.steps();
        self.add_step(AlgorithmStep::Node(NodeStep::new(node_index, NodeState::Queued)));
        graph.set_state(node_index, NodeState::Queued);
        let ghost s0 = graph.states();
        proof {
            lemma_count_update(pre, node_index as int, NodeState::Queued);
        }

        let total = graph.neighbor_count(node_index);
        let mut j: usize = 0;
        while j < total
            invariant
                graph.well_formed(),
                pre == old(graph).states(),
                node_index < pre.len(),
                pre.len() == s0.len(),
                s0 == pre.update(node_index as int, NodeState::Queued),
                graph.states().len() == s0.len(),
                graph.adjacency() == old(graph).adjacency(),
                graph.spec_edge_count() == old(graph).spec_edge_count(),
                total == graph.adjacency()[node_index as int].len(),
                j <= total,
                graph.states()[node_index as int] is Queued,
                forall|i: int|
                    0 <= i < s0.len() ==> (graph.states()[i] == s0[i] || (s0[i] is NotVisited
                        && graph.states()[i] is Visited)),
                forall|k: int|
                    0 <= k < j ==> !(graph.states()[graph.adjacency()[node_index as int][k].1 as int] is NotVisited),
                self.steps().len() > steps_pre.len(),
                forall|k: int| 0 <= k < steps_pre.len() ==> self.steps()[k] == steps_pre[k],
                self.steps()[steps_pre.len() as int] == (AlgorithmStep::Node(
                    NodeStep { node: node_index, state: NodeState::Queued },
                )),
            decreases total - j,
        {
            let (edge_id, target) = graph.neighbor(node_index, j);
            let state = graph.get_state(target);
            if matches!(state, NodeState::NotVisited) {
                self.add_step(AlgorithmStep::Edge(EdgeStep::new(edge_id)));
                let ghost mid = graph.states();
                let ghost mid_steps = self.steps();
                proof {
                    lemma_count_update(pre, node_index as int, NodeState::Queued);
                    lemma_count_not_visited_le(s0, mid);
                }
                self.dfs_helper(graph, target);
                proof {
                    assert forall|i: int|
                        0 <= i < s0.len() implies (graph.states()[i] == s0[i] || (
                    s0[i] is NotVisited && graph.states()[i] is Visited)) by {
                        if i == target {
                            assert(mid[i] is NotVisited);
                            assert(mid[i] == s0[i] || (s0[i] is NotVisited
                                && mid[i] is Visited));
                        }
                    }
                    assert(mid_steps == self.steps().subrange(0, mid_steps.len() as int));
                    assert forall|k: int| 0 <= k < steps_pre.len() implies self.steps()[k]
                        == steps_pre[k] by {
                        assert(self.steps()[k] == mid_steps[k]);
                    }
                    assert(self.steps()[steps_pre.len() as int] == mid_steps[steps_pre.len() as int]);
                }
            }
            j = j + 1;
        }

        let ghost exit_states = graph.states();
        self.add_step(AlgorithmStep::Node(NodeStep::new(node_index, NodeState::Visited)));
        graph.set_state(node_index, NodeState::Visited);
        proof {
            assert forall|i: int|
                0 <= i < pre.len() && i != node_index implies (graph.states()[i] == pre[i] || (
            pre[i] is NotVisited && graph.states()[i] is Visited)) by {
                assert(graph.states()[i] == exit_states[i]);
                assert(s0[i] == pre[i]);
            }
            assert(steps_pre =~= self.steps().subrange(0, steps_pre.len() as int));
        }
    }
}

} // verus!
