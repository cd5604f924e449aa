//! The render graph: the order in which the nodes of a frame run, and the
//! simulation's own node among them.

use crate::node::{
    next_state, pass_of, ready_pipeline, NodeRunError, RenderContext, SlimeNode, SlimeState,
};
use crate::world::{RenderWorld, RenderWorldView};
use vstd::prelude::*;

verus! {

/// Name under which the simulation's node is registered.
pub const GAME_OF_LIFE: &'static str = "game_of_life";

/// Name of the host's node that drives the cameras and presents the frame.
pub const CAMERA_DRIVER: &'static str = "camera_driver";

/// Why a node could not be added to the graph.
#[derive(Clone, Copy, Debug, PartialEq, Eq, Structural)]
pub enum RenderGraphError {
    /// The node that the new one has to run before is not in the graph.
    InvalidNode,
    /// The graph already has a node of that name.
    NodeExists,
}

/// The nodes of a frame by name, in the order in which they run, together
/// with the simulation's node once it has been added. The other nodes belong
/// to the host; the graph knows them by name only.
#[derive(Debug)]
pub struct RenderGraph {
    order: Vec<String>,
    slime_node: Option<SlimeNode>,
}

/// Mathematical content of a [`RenderGraph`].
pub struct RenderGraphView {
    /// The names of the nodes, first to run first.
    pub order: Seq<Seq<char>>,
    /// The state of the simulation's node, if the graph has one.
    pub slime_node: Option<SlimeState>,
}

impl View for RenderGraph {
    type V = RenderGraphView;

    closed spec fn view(&self) -> RenderGraphView {
        RenderGraphView {
            order: Seq::new(self.order@.len(), |i: int| self.order@[i]@),
            slime_node: match self.slime_node {
                Some(node) => Some(node@),
                None => None,
            },
        }
    }
}

/// `graph` after an attempt to add the simulation's node in state `node`
/// under `name`, directly ahead of the first node called `before`.
pub open spec fn graph_with_node(
    graph: RenderGraphView,
    name: Seq<char>,
    node: SlimeState,
    before: Seq<char>,
) -> Result<RenderGraphView, RenderGraphError> {
    if graph.order.contains(name) {
        Err(RenderGraphError::NodeExists)
    } else if !graph.order.contains(before) {
        Err(RenderGraphError::InvalidNode)
    } else {
        Ok(
            RenderGraphView {
                order: graph.order.insert(graph.order.index_of_first(before)->0, name),
                slime_node: Some(node),
            },
        )
    }
}

/// `graph` after the update phase of its nodes over `world`.
pub open spec fn graph_after_update(
    graph: RenderGraphView,
    world: RenderWorldView,
) -> RenderGraphView {
    RenderGraphView {
        slime_node: match graph.slime_node {
            Some(state) => Some(next_state(state, ready_pipeline(world) is Some)),
            None => None,
        },
        ..graph
    }
}

impl RenderGraph {
    /// The graph of a host that has registered nothing but its camera driver.
    pub fn new() -> (graph: RenderGraph)
        ensures
            graph@ == (RenderGraphView { order: seq![CAMERA_DRIVER@], slime_node: None }),
            graph@.order.contains(CAMERA_DRIVER@),
            !graph@.order.contains(GAME_OF_LIFE@),
    {
        let graph = RenderGraph { order: vec![CAMERA_DRIVER.to_owned()], slime_node: None };
        proof {
            reveal_strlit("camera_driver");
            reveal_strlit("game_of_life");
            assert(graph@.order =~= seq![CAMERA_DRIVER@]);
            assert(graph@.order[0] == CAMERA_DRIVER@);
            assert(GAME_OF_LIFE@.len() != CAMERA_DRIVER@.len());
        }
        graph
    }

    /// The state of the simulation's node, if the graph has one.
    pub fn slime_state(&self) -> (state: Option<SlimeState>)
        ensures
            state == self@.slime_node,
    {
        match &self.slime_node {
            Some(node) => Some(node.state()),
            None => None,
        }
    }

    /// Number of nodes in the graph.
    pub fn len(&self) -> (len: usize)
        ensures
            len == self@.order.len(),
    {
        self.order.len()
    }

    /// The place of the first node called `name` in the running order, or
    /// `None` where the graph has no such node.
    pub fn position(&self, name: &str) -> (position: Option<usize>)
        ensures
            match position {
                Some(at) => self@.order.index_of_first(name@) == Some(at as int),
                None => self@.order.index_of_first(name@) is None,
            },
    {
        let target = name.to_owned();
        let mut i: usize = 0;
        while i < self.order.len()
            invariant
                i <= self.order.len(),
                target@ == name@,
                forall|j: int| 0 <= j < i ==> self@.order[j] != name@,
            decreases self.order.len() - i,
        {
            if self.order[i] == target {
                proof {
                    self@.order.index_of_first_ensures(name@);
                    assert(self@.order[i as int] == name@);
                }
                return Some(i);
            }
            i += 1;
        }
        proof {
            self@.order.index_of_first_ensures(name@);
        }
        None
    }

    /// Adds the simulation's node under `name` and has it run directly ahead
    /// of the first node called `before`. The nodes that were there keep
    /// their order. Fails, and changes nothing, where a node called `name` is
    /// there already or none is called `before`.
    pub fn add_node_before(&mut self, name: &str, node: SlimeNode, before: &str) -> (result:
        Result<(), RenderGraphError>)
        ensures
            match graph_with_node(old(self)@, name@, node@, before@) {
                Ok(graph) => result is Ok && final(self)@ == graph,
                Err(error) => result == Err::<(), RenderGraphError>(error)
                    && final(self)@ == old(self)@,
            },
    {
        proof {
            self@.order.index_of_first_ensures(name@);
            self@.order.index_of_first_ensures(before@);
        }
        if self.position(name).is_some() {
            return Err(RenderGraphError::NodeExists);
        }
        match self.position(before) {
            Some(at) => {
                let owned = name.to_owned();
                self.order.insert(at, owned);
                self.slime_node = Some(node);
                assert(self@.order =~= old(self)@.order.insert(at as int, name@));
                Ok(())
            },
            None => Err(RenderGraphError::InvalidNode),
        }
    }

    /// The update phase of the graph's nodes over `world`.
    pub fn update(&mut self, world: &RenderWorld)
        ensures
            final(self)@ == graph_after_update(old(self)@, world@),
    {
        match &mut self.slime_node {
            Some(node) => node.update(world),
            None => {},
        }
    }

    /// The execute phase of the graph's nodes over `world`. A graph without
    /// the simulation's node records nothing.
    pub fn run(&self, render_context: &mut RenderContext, world: &RenderWorld) -> (result: Result<
        (),
        NodeRunError,
    >)
        ensures
            match self@.slime_node {
                Some(state) => match pass_of(state, world@) {
                    Ok(commands) => result is Ok
                        && final(render_context)@ == old(render_context)@.push(commands),
                    Err(error) => result == Err::<(), NodeRunError>(error)
                        && final(render_context)@ == old(render_context)@,
                },
                None => result is Ok && final(render_context)@ == old(render_context)@,
            },
    {
        match &self.slime_node {
            Some(node) => node.run(render_context, world),
            None => Ok(()),
        }
    }
}

/// A node that was added ahead of another runs ahead of it: in the new order
/// it comes first of the two, directly in front.
pub proof fn lemma_added_node_runs_before(
    graph: RenderGraphView,
    name: Seq<char>,
    node: SlimeState,
    before: Seq<char>,
)
    requires
        graph_with_node(graph, name, node, before) is Ok,
    ensures
        ({
            let added = graph_with_node(graph, name, node, before)->Ok_0;
            &&& added.order.index_of_first(name) is Some
            &&& added.order.index_of_first(before) == Some(added.order.index_of_first(name)->0 + 1)
        }),
{
    let added = graph_with_node(graph, name, node, before)->Ok_0;
    graph.order.index_of_first_ensures(before);
    graph.order.index_of_first_ensures(name);
    let at = graph.order.index_of_first(before)->0;
    assert(added.order[at] == name);
    assert(added.order[at + 1] == before);
    assert forall|j: int| 0 <= j < at implies added.order[j] != name && added.order[j]
        != before by {
        assert(added.order[j] == graph.order[j]);
        assert(graph.order.contains(graph.order[j]));
    }
    added.order.index_of_first_ensures(name);
    added.order.index_of_first_ensures(before);
}

} // verus!
