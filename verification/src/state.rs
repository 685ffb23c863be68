//! The interaction protocol between node bodies and the host editor.
//!
//! A node's body may emit responses while it is drawn; the host folds
//! every response into the per-document `MyGraphState` through the one
//! reducer below, so every active-node transition passes through a
//! single choke point.

use vstd::prelude::*;
use crate::graph::{Graph, NodeId};

verus! {

/// An event a node's body emits back to the host editor.
#[derive(Clone, Copy, Debug, PartialEq, Eq, Structural)]
pub enum MyResponse {
    SetActiveNode(NodeId),
    ClearActiveNode,
}

/// The per-document interaction state: at most one active node, held
/// as a plain identifier, never as an owning handle — the node it
/// names may be deleted at any time.
#[derive(Clone, Copy, Debug)]
pub struct MyGraphState {
    pub active_node: Option<NodeId>,
}

/// The reducer rule: what the active-node field becomes when one
/// response is applied to it.
pub open spec fn apply_response_spec(active: Option<NodeId>, r: MyResponse) -> Option<NodeId> {
    match r {
        MyResponse::SetActiveNode(id) => Some(id),
        MyResponse::ClearActiveNode => None,
    }
}

/// The state is consistent with a graph when its active node, if any,
/// is present there.
pub open spec fn state_consistent(s: MyGraphState, g: Graph) -> bool {
    match s.active_node {
        Some(id) => g.contains(id),
        None => true,
    }
}

impl MyGraphState {
    /// The state of a freshly opened document: no active node.
    pub fn new() -> (s: MyGraphState)
        ensures
            s.active_node is None,
    {
        MyGraphState { active_node: None }
    }

    /// Folds one response into the state: `SetActiveNode(id)` makes
    /// `id` active, `ClearActiveNode` makes nothing active, whatever
    /// was active before.
    pub fn apply_response(&mut self, r: MyResponse)
        ensures
            final(self).active_node == apply_response_spec(old(self).active_node, r),
    {
        match r {
            MyResponse::SetActiveNode(id) => {
                self.active_node = Some(id);
            },
            MyResponse::ClearActiveNode => {
                self.active_node = None;
            },
        }
    }

    /// Whether the node drawing itself under `self_id` is the active
    /// one, which decides which of the two body states it renders.
    pub fn is_active(&self, self_id: NodeId) -> (b: bool)
        ensures
            b == (self.active_node == Some(self_id)),
    {
        match self.active_node {
            Some(id) => id == self_id,
            None => false,
        }
    }

    /// The one response a click on the node's body control emits: the
    /// inactive body offers a control that makes the node active, the
    /// active body one that clears the selection.
    pub fn click_response(&self, self_id: NodeId) -> (r: MyResponse)
        ensures
            r == (if self.active_node == Some(self_id) {
                MyResponse::ClearActiveNode
            } else {
                MyResponse::SetActiveNode(self_id)
            }),
    {
        if self.is_active(self_id) {
            MyResponse::ClearActiveNode
        } else {
            MyResponse::SetActiveNode(self_id)
        }
    }

    /// Defensive clearing: if the active node no longer exists in the
    /// graph, treat the stale reference as "no active node"; an intact
    /// reference is kept as it is. Afterwards the state is consistent
    /// with the graph.
    pub fn reconcile(&mut self, graph: &Graph)
        ensures
            final(self).active_node == (match old(self).active_node {
                Some(id) => if graph.contains(id) {
                    Some(id)
                } else {
                    None
                },
                None => None::<NodeId>,
            }),
            state_consistent(*final(self), *graph),
    {
        match self.active_node {
            Some(id) => {
                if !graph.has_node(id) {
                    self.active_node = None;
                }
            },
            None => {},
        }
    }
}

impl Default for MyGraphState {
    /// A new document starts with no active node.
    fn default() -> (s: Self)
        ensures
            s.active_node is None,
    {
        MyGraphState { active_node: None }
    }
}

/// The reducer is idempotent: applying the same response twice in a
/// row leaves the same active node as applying it once.
pub proof fn lemma_reducer_idempotent(active: Option<NodeId>, r: MyResponse)
    ensures
        apply_response_spec(apply_response_spec(active, r), r) == apply_response_spec(active, r),
{
}

} // verus!
