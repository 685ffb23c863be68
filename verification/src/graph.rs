//! The owning store of nodes, ports and connections.
//!
//! Nodes live in slots addressed by `NodeId`; removing a node empties
//! its slot and its identifier is never reused, so a stale identifier
//! is simply one whose slot is no longer occupied. A connection is a
//! directed edge from an output port to an input port; an input port
//! has at most one incoming connection, while an output port may drive
//! many inputs, and the two ports of a connection always carry equal
//! data types.

use vstd::prelude::*;
use vstd::seq_lib::*;
use crate::data_type::MyDataType;
use crate::template::MyNodeData;
use crate::value::{tag_of, MyValueType};

verus! {

/// Identifies a node slot in a graph. Stays stable for the life of the
/// graph; after the node is removed the identifier goes stale.
#[derive(Clone, Copy, Debug, PartialEq, Eq, Structural)]
pub struct NodeId {
    pub idx: usize,
}

/// Identifies one output port: a node and a position in its output list.
#[derive(Clone, Copy, Debug, PartialEq, Eq, Structural)]
pub struct OutputRef {
    pub node: NodeId,
    pub port: usize,
}

/// Identifies one input port: a node and a position in its input list.
#[derive(Clone, Copy, Debug, PartialEq, Eq, Structural)]
pub struct InputRef {
    pub node: NodeId,
    pub port: usize,
}

/// How an input port may be fed.
#[derive(Clone, Copy, Debug, PartialEq, Eq, Structural)]
pub enum InputParamKind {
    ConnectionOnly,
    ConstantOnly,
    ConnectionOrConstant,
}

/// An input port: named, typed, holding an editable constant whose tag
/// always matches the declared type.
#[derive(Clone, Debug)]
pub struct InputParam {
    pub name: String,
    pub typ: MyDataType,
    pub value: MyValueType,
    pub kind: InputParamKind,
}

/// An output port: named and typed.
#[derive(Clone, Debug)]
pub struct OutputParam {
    pub name: String,
    pub typ: MyDataType,
}

/// A node: its label, its payload, and the ports it owns.
#[derive(Clone, Debug)]
pub struct Node {
    pub label: String,
    pub user_data: MyNodeData,
    pub inputs: Vec<InputParam>,
    pub outputs: Vec<OutputParam>,
}

/// A directed edge from an output port to an input port.
#[derive(Clone, Copy, Debug, PartialEq, Eq, Structural)]
pub struct Connection {
    pub output: OutputRef,
    pub input: InputRef,
}

/// The failure reported when a requested connection cannot be made.
#[derive(Clone, Copy, Debug, PartialEq, Eq, Structural)]
pub enum ConnectError {
    NoSuchOutput,
    NoSuchInput,
    IncompatibleTypes { output: MyDataType, input: MyDataType },
}

/// The graph: node slots plus the connections between their ports.
#[derive(Clone, Debug)]
pub struct Graph {
    pub slots: Vec<Option<Node>>,
    pub connections: Vec<Connection>,
}

/// An input port described abstractly: the view under which a template
/// promises the ports it creates.
pub ghost struct InPortSpec {
    pub name: Seq<char>,
    pub typ: MyDataType,
    pub value: MyValueType,
    pub kind: InputParamKind,
}

/// An output port described abstractly.
pub ghost struct OutPortSpec {
    pub name: Seq<char>,
    pub typ: MyDataType,
}

/// The abstract description of one input port.
pub open spec fn input_view(p: InputParam) -> InPortSpec {
    InPortSpec { name: p.name@, typ: p.typ, value: p.value, kind: p.kind }
}

/// The abstract description of one output port.
pub open spec fn output_view(p: OutputParam) -> OutPortSpec {
    OutPortSpec { name: p.name@, typ: p.typ }
}

/// The abstract description of a node's input port list.
pub open spec fn inputs_view(s: Seq<InputParam>) -> Seq<InPortSpec> {
    s.map_values(|p: InputParam| input_view(p))
}

/// The abstract description of a node's output port list.
pub open spec fn outputs_view(s: Seq<OutputParam>) -> Seq<OutPortSpec> {
    s.map_values(|p: OutputParam| output_view(p))
}

/// An input port's constant carries the tag its declared type demands.
pub open spec fn input_wf(p: InputParam) -> bool {
    tag_of(p.value) == p.typ
}

/// Every input port of the node is well formed.
pub open spec fn node_wf(n: Node) -> bool {
    forall|i: int| 0 <= i < n.inputs@.len() ==> input_wf(#[trigger] n.inputs@[i])
}

impl Graph {
    /// The node identified by `n` is present.
    pub open spec fn contains(self, n: NodeId) -> bool {
        n.idx < self.slots@.len() && self.slots@[n.idx as int] is Some
    }

    /// The node stored under `n` (meaningful only when present).
    pub open spec fn node_of(self, n: NodeId) -> Node {
        self.slots@[n.idx as int]->Some_0
    }

    /// `r` names an existing output port.
    pub open spec fn output_ref_valid(self, r: OutputRef) -> bool {
        self.contains(r.node) && r.port < self.node_of(r.node).outputs@.len()
    }

    /// `r` names an existing input port.
    pub open spec fn input_ref_valid(self, r: InputRef) -> bool {
        self.contains(r.node) && r.port < self.node_of(r.node).inputs@.len()
    }

    /// The declared type of an existing output port.
    pub open spec fn output_type(self, r: OutputRef) -> MyDataType {
        self.node_of(r.node).outputs@[r.port as int].typ
    }

    /// The declared type of an existing input port.
    pub open spec fn input_type(self, r: InputRef) -> MyDataType {
        self.node_of(r.node).inputs@[r.port as int].typ
    }

    /// A connection joins two existing ports of equal data type.
    pub open spec fn connection_wf(self, c: Connection) -> bool {
        &&& self.output_ref_valid(c.output)
        &&& self.input_ref_valid(c.input)
        &&& self.output_type(c.output) == self.input_type(c.input)
    }

    /// The input port named by `r` has an incoming connection.
    pub open spec fn spec_connected(self, r: InputRef) -> bool {
        exists|i: int| 0 <= i < self.connections@.len() && (#[trigger] self.connections@[i]).input == r
    }

    /// The graph invariant: every present node is well formed, every
    /// connection joins existing, equally-typed ports, and no input
    /// port has two incoming connections.
    pub open spec fn wf(self) -> bool {
        &&& forall|i: int|
            0 <= i < self.slots@.len() && self.slots@[i] is Some ==> node_wf(
                (#[trigger] self.slots@[i])->Some_0,
            )
        &&& forall|i: int|
            0 <= i < self.connections@.len() ==> self.connection_wf(#[trigger] self.connections@[i])
        &&& forall|i: int, j: int|
            0 <= i < j < self.connections@.len() ==> self.connections@[i].input
                != self.connections@[j].input
    }

    /// An empty graph: no nodes, no connections.
    pub fn new() -> (g: Graph)
        ensures
            g.wf(),
            g.slots@.len() == 0,
            g.connections@.len() == 0,
    {
        Graph { slots: Vec::new(), connections: Vec::new() }
    }

    /// Whether the node identified by `n` is present (a stale identifier
    /// simply reports absence).
    pub fn has_node(&self, n: NodeId) -> (b: bool)
        ensures
            b == self.contains(n),
    {
        n.idx < self.slots.len() && self.slots[n.idx].is_some()
    }

    /// Appends a fresh, empty node and returns its identifier, which no
    /// earlier node has carried; every other slot is untouched.
    pub fn add_node(&mut self, label: String, user_data: MyNodeData) -> (n: NodeId)
        requires
            old(self).wf(),
        ensures
            final(self).wf(),
            n.idx == old(self).slots@.len(),
            !old(self).contains(n),
            final(self).contains(n),
            final(self).slots@.len() == old(self).slots@.len() + 1,
            final(self).node_of(n).label == label,
            final(self).node_of(n).user_data == user_data,
            final(self).node_of(n).inputs@.len() == 0,
            final(self).node_of(n).outputs@.len() == 0,
            forall|m: NodeId| m != n ==> final(self).contains(m) == old(self).contains(m),
            forall|m: NodeId|
                m != n && old(self).contains(m) ==> final(self).node_of(m) == old(self).node_of(m),
            final(self).connections@ == old(self).connections@,
    {
        let n = NodeId { idx: self.slots.len() };
        self.slots.push(Some(Node { label, user_data, inputs: Vec::new(), outputs: Vec::new() }));
        proof {
            assert forall|i: int|
                0 <= i < self.connections@.len() implies self.connection_wf(
                #[trigger] self.connections@[i],
            ) by {
                assert(old(self).connection_wf(old(self).connections@[i]));
            }
        }
        n
    }

    /// Appends an input port to a present node: the given name, type,
    /// default constant and feeding policy, in declaration order. Returns
    /// the port's position. Nothing else in the graph changes.
    pub fn add_input_param(
        &mut self,
        node_id: NodeId,
        name: String,
        typ: MyDataType,
        value: MyValueType,
        kind: InputParamKind,
    ) -> (idx: usize)
        requires
            old(self).wf(),
            old(self).contains(node_id),
            tag_of(value) == typ,
        ensures
            final(self).wf(),
            idx == old(self).node_of(node_id).inputs@.len(),
            final(self).slots@.len() == old(self).slots@.len(),
            final(self).contains(node_id),
            final(self).node_of(node_id).inputs@ == old(self).node_of(node_id).inputs@.push(
                InputParam { name, typ, value, kind },
            ),
            final(self).node_of(node_id).outputs@ == old(self).node_of(node_id).outputs@,
            final(self).node_of(node_id).label == old(self).node_of(node_id).label,
            final(self).node_of(node_id).user_data == old(self).node_of(node_id).user_data,
            forall|m: NodeId| final(self).contains(m) == old(self).contains(m),
            forall|m: NodeId|
                m != node_id && old(self).contains(m) ==> final(self).node_of(m) == old(
                    self,
                ).node_of(m),
            final(self).connections@ == old(self).connections@,
    {
        let ghost pre = *self;
        let slot = &mut self.slots[node_id.idx];
        match slot {
            Option::Some(node) => {
                let idx = node.inputs.len();
                node.inputs.push(InputParam { name, typ, value, kind });
                proof {
                    assert forall|i: int|
                        0 <= i < self.connections@.len() implies self.connection_wf(
                        #[trigger] self.connections@[i],
                    ) by {
                        assert(pre.connection_wf(pre.connections@[i]));
                    }
                }
                idx
            },
            Option::None => {
                proof {
                    assert(false);
                }
                0
            },
        }
    }

    /// Appends an output port to a present node: the given name and
    /// type, in declaration order. Returns the port's position. Nothing
    /// else in the graph changes.
    pub fn add_output_param(&mut self, node_id: NodeId, name: String, typ: MyDataType) -> (idx:
        usize)
        requires
            old(self).wf(),
            old(self).contains(node_id),
        ensures
            final(self).wf(),
            idx == old(self).node_of(node_id).outputs@.len(),
            final(self).slots@.len() == old(self).slots@.len(),
            final(self).contains(node_id),
            final(self).node_of(node_id).outputs@ == old(self).node_of(node_id).outputs@.push(
                OutputParam { name, typ },
            ),
            final(self).node_of(node_id).inputs@ == old(self).node_of(node_id).inputs@,
            final(self).node_of(node_id).label == old(self).node_of(node_id).label,
            final(self).node_of(node_id).user_data == old(self).node_of(node_id).user_data,
            forall|m: NodeId| final(self).contains(m) == old(self).contains(m),
            forall|m: NodeId|
                m != node_id && old(self).contains(m) ==> final(self).node_of(m) == old(
                    self,
                ).node_of(m),
            final(self).connections@ == old(self).connections@,
    {
        let ghost pre = *self;
        let slot = &mut self.slots[node_id.idx];
        match slot {
            Option::Some(node) => {
                let idx = node.outputs.len();
                node.outputs.push(OutputParam { name, typ });
                proof {
                    assert forall|i: int|
                        0 <= i < self.connections@.len() implies self.connection_wf(
                        #[trigger] self.connections@[i],
                    ) by {
                        assert(pre.connection_wf(pre.connections@[i]));
                    }
                }
                idx
            },
            Option::None => {
                proof {
                    assert(false);
                }
                0
            },
        }
    }

    /// Whether `r` names an existing output port.
    pub fn output_ref_ok(&self, r: OutputRef) -> (b: bool)
        ensures
            b == self.output_ref_valid(r),
    {
        r.node.idx < self.slots.len() && match &self.slots[r.node.idx] {
            Option::Some(node) => r.port < node.outputs.len(),
            Option::None => false,
        }
    }

    /// Whether `r` names an existing input port.
    pub fn input_ref_ok(&self, r: InputRef) -> (b: bool)
        ensures
            b == self.input_ref_valid(r),
    {
        r.node.idx < self.slots.len() && match &self.slots[r.node.idx] {
            Option::Some(node) => r.port < node.inputs.len(),
            Option::None => false,
        }
    }

    /// The declared type of an existing output port.
    pub fn output_type_of(&self, r: OutputRef) -> (d: MyDataType)
        requires
            self.output_ref_valid(r),
        ensures
            d == self.output_type(r),
    {
        match &self.slots[r.node.idx] {
            Option::Some(node) => node.outputs[r.port].typ,
            Option::None => {
                proof {
                    assert(false);
                }
                MyDataType::Scalar
            },
        }
    }

    /// The declared type of an existing input port.
    pub fn input_type_of(&self, r: InputRef) -> (d: MyDataType)
        requires
            self.input_ref_valid(r),
        ensures
            d == self.input_type(r),
    {
        match &self.slots[r.node.idx] {
            Option::Some(node) => node.inputs[r.port].typ,
            Option::None => {
                proof {
                    assert(false);
                }
                MyDataType::Scalar
            },
        }
    }

    /// Drops the incoming connection of the input port named by `r`,
    /// if any; every other connection and all nodes stay as they were.
    pub fn disconnect(&mut self, r: InputRef)
        requires
            old(self).wf(),
        ensures
            final(self).wf(),
            final(self).slots@ == old(self).slots@,
            final(self).connections@ == old(self).connections@.filter(
                |c: Connection| c.input != r,
            ),
            !final(self).spec_connected(r),
    {
        broadcast use vstd::seq_lib::group_filter_ensures;

        let ghost pred = |c: Connection| c.input != r;
        let mut kept: Vec<Connection> = Vec::new();
        let n = self.connections.len();
        let mut j: usize = 0;
        while j < n
            invariant
                n == self.connections@.len(),
                j <= n,
                old(self).wf(),
                *self == *old(self),
                pred == (|c: Connection| c.input != r),
                kept@ == self.connections@.take(j as int).filter(pred),
            decreases n - j,
        {
            let c = self.connections[j];
            proof {
                assert(self.connections@.take(j + 1) =~= self.connections@.take(j as int).push(c));
                self.connections@.take(j as int).lemma_filter_push(c, pred);
            }
            if !(c.input == r) {
                kept.push(c);
            }
            j += 1;
        }
        proof {
            assert(self.connections@.take(n as int) =~= self.connections@);
        }
        self.connections = kept;
        proof {
            let oldc = old(self).connections@;
            let newc = oldc.filter(pred);
            assert forall|i: int| 0 <= i < newc.len() implies self.connection_wf(
                #[trigger] newc[i],
            ) by {
                lemma_filter_element_source(oldc, pred, i);
                let src = choose|s: int| 0 <= s < oldc.len() && oldc[s] == newc[i];
                assert(old(self).connection_wf(oldc[src]));
            }
            assert forall|i: int, j2: int| 0 <= i < j2 < newc.len() implies newc[i].input
                != newc[j2].input by {
                lemma_filter_distinct_inputs(oldc, pred, i, j2);
            }
        }
    }

    /// Connects an output port to an input port. Succeeds exactly when
    /// both ports exist and their data types are equal — there is no
    /// implicit widening — and then replaces whatever connection the
    /// input port had. On failure the graph is unchanged and the error
    /// says what was wrong: a missing output port, a missing input
    /// port, or the two unequal types.
    pub fn add_connection(&mut self, output: OutputRef, input: InputRef) -> (r: Result<
        (),
        ConnectError,
    >)
        requires
            old(self).wf(),
        ensures
            final(self).wf(),
            final(self).slots@ == old(self).slots@,
            (match r {
                Result::Ok(()) => {
                    &&& old(self).output_ref_valid(output)
                    &&& old(self).input_ref_valid(input)
                    &&& old(self).output_type(output) == old(self).input_type(input)
                    &&& final(self).connections@ == old(self).connections@.filter(
                        |c: Connection| c.input != input,
                    ).push(Connection { output, input })
                    &&& final(self).spec_connected(input)
                },
                Result::Err(e) => {
                    &&& final(self).connections@ == old(self).connections@
                    &&& (match e {
                        ConnectError::NoSuchOutput => !old(self).output_ref_valid(output),
                        ConnectError::NoSuchInput => old(self).output_ref_valid(output) && !old(
                            self,
                        ).input_ref_valid(input),
                        ConnectError::IncompatibleTypes { output: dto, input: dti } => {
                            &&& old(self).output_ref_valid(output)
                            &&& old(self).input_ref_valid(input)
                            &&& dto == old(self).output_type(output)
                            &&& dti == old(self).input_type(input)
                            &&& dto != dti
                        },
                    })
                },
            }),
    {
        broadcast use vstd::seq_lib::group_filter_ensures;

        if !self.output_ref_ok(output) {
            return Err(ConnectError::NoSuchOutput);
        }
        if !self.input_ref_ok(input) {
            return Err(ConnectError::NoSuchInput);
        }
        let dto = self.output_type_of(output);
        let dti = self.input_type_of(input);
        if !crate::data_type::can_connect(dto, dti) {
            return Err(ConnectError::IncompatibleTypes { output: dto, input: dti });
        }
        self.disconnect(input);
        self.connections.push(Connection { output, input });
        proof {
            assert(self.connections@[self.connections@.len() - 1].input == input);
        }
        Ok(())
    }

    /// Empties the slot of the node identified by `n` (a no-op on a
    /// stale or unknown identifier) and drops every connection touching
    /// one of its ports. Other nodes, their ports and the connections
    /// among them stay as they were, and the freed identifier is never
    /// handed out again.
    pub fn remove_node(&mut self, n: NodeId)
        requires
            old(self).wf(),
        ensures
            final(self).wf(),
            !final(self).contains(n),
            final(self).slots@.len() == old(self).slots@.len(),
            forall|m: NodeId| m != n ==> final(self).contains(m) == old(self).contains(m),
            forall|m: NodeId|
                m != n && old(self).contains(m) ==> final(self).node_of(m) == old(self).node_of(m),
            final(self).connections@ == old(self).connections@.filter(
                |c: Connection| c.output.node != n && c.input.node != n,
            ),
    {
        broadcast use vstd::seq_lib::group_filter_ensures;

        let ghost pred = |c: Connection| c.output.node != n && c.input.node != n;
        if n.idx < self.slots.len() {
            self.slots[n.idx] = None;
        }
        let mut kept: Vec<Connection> = Vec::new();
        let cn = self.connections.len();
        let mut j: usize = 0;
        while j < cn
            invariant
                cn == self.connections@.len(),
                j <= cn,
                self.connections@ == old(self).connections@,
                pred == (|c: Connection| c.output.node != n && c.input.node != n),
                kept@ == self.connections@.take(j as int).filter(pred),
            decreases cn - j,
        {
            let c = self.connections[j];
            proof {
                assert(self.connections@.take(j + 1) =~= self.connections@.take(j as int).push(c));
                self.connections@.take(j as int).lemma_filter_push(c, pred);
            }
            if !(c.output.node == n) && !(c.input.node == n) {
                kept.push(c);
            }
            j += 1;
        }
        proof {
            assert(self.connections@.take(cn as int) =~= self.connections@);
        }
        self.connections = kept;
        proof {
            let oldc = old(self).connections@;
            let newc = oldc.filter(pred);
            assert forall|i: int| 0 <= i < newc.len() implies self.connection_wf(
                #[trigger] newc[i],
            ) by {
                lemma_filter_element_source(oldc, pred, i);
                let src = choose|s: int| 0 <= s < oldc.len() && oldc[s] == newc[i];
                assert(old(self).connection_wf(oldc[src]));
                assert(newc[i].output.node != n && newc[i].input.node != n);
            }
            assert forall|i: int, j2: int| 0 <= i < j2 < newc.len() implies newc[i].input
                != newc[j2].input by {
                lemma_filter_distinct_inputs(oldc, pred, i, j2);
            }
        }
    }
}

/// Every element of a filtered sequence occurs somewhere in the
/// original sequence.
proof fn lemma_filter_element_source(
    s: Seq<Connection>,
    pred: spec_fn(Connection) -> bool,
    i: int,
)
    requires
        0 <= i < s.filter(pred).len(),
    ensures
        exists|j: int| 0 <= j < s.len() && s[j] == s.filter(pred)[i],
    decreases s.len(),
{
    reveal(Seq::<Connection>::filter);
    if s.len() > 0 {
        let rest = s.drop_last().filter(pred);
        if pred(s.last()) && i == rest.len() {
            assert(s[s.len() - 1] == s.filter(pred)[i]);
        } else {
            lemma_filter_element_source(s.drop_last(), pred, i);
            let j = choose|j: int| 0 <= j < s.drop_last().len() && s.drop_last()[j] == s.drop_last(
            ).filter(pred)[i];
            assert(s[j] == s.filter(pred)[i]);
        }
    }
}

/// Filtering a sequence of connections with pairwise distinct inputs
/// leaves the inputs pairwise distinct.
proof fn lemma_filter_distinct_inputs(
    s: Seq<Connection>,
    pred: spec_fn(Connection) -> bool,
    i: int,
    j: int,
)
    requires
        forall|a: int, b: int| 0 <= a < b < s.len() ==> s[a].input != s[b].input,
        0 <= i < j < s.filter(pred).len(),
    ensures
        s.filter(pred)[i].input != s.filter(pred)[j].input,
    decreases s.len(),
{
    reveal(Seq::<Connection>::filter);
    if s.len() > 0 {
        let rest = s.drop_last().filter(pred);
        if pred(s.last()) && j == rest.len() {
            lemma_filter_element_source(s.drop_last(), pred, i);
            let src = choose|k: int| 0 <= k < s.drop_last().len() && s.drop_last()[k] == s.drop_last(
            ).filter(pred)[i];
            assert(s[src].input != s[s.len() - 1].input);
        } else {
            lemma_filter_distinct_inputs(s.drop_last(), pred, i, j);
        }
    }
}

} // verus!
