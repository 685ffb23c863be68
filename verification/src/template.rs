//! The catalog of node kinds and how each one builds its ports.

use vstd::prelude::*;
use vstd::string::*;
use crate::data_type::MyDataType;
use crate::graph::{
    inputs_view, outputs_view, Graph, InPortSpec, InputParam, InputParamKind, NodeId, OutPortSpec,
    OutputParam,
};
use crate::value::{MyValueType, Vec2Data};

verus! {

/// A node kind the user can instantiate. Stateless: a template is a
/// pure descriptor of a label and a fixed port-building procedure.
#[derive(Clone, Copy, Debug, PartialEq, Eq, Structural)]
pub enum MyNodeTemplate {
    MakeVector,
    MakeScalar,
    AddScalar,
    SubtractScalar,
    VectorTimesScalar,
    AddVector,
    SubtractVector,
}

/// The per-node payload: records which template the node was built
/// from. Created once at instantiation and immutable thereafter.
#[derive(Clone, Copy, Debug, PartialEq, Eq, Structural)]
pub struct MyNodeData {
    pub template: MyNodeTemplate,
}

/// What `node_finder_label` returns for each template.
pub open spec fn spec_finder_label(t: MyNodeTemplate) -> Seq<char> {
    match t {
        MyNodeTemplate::MakeVector => "New vector"@,
        MyNodeTemplate::MakeScalar => "New scalar"@,
        MyNodeTemplate::AddScalar => "Scalar add"@,
        MyNodeTemplate::SubtractScalar => "Scalar subtract"@,
        MyNodeTemplate::AddVector => "Vector add"@,
        MyNodeTemplate::SubtractVector => "Vector subtract"@,
        MyNodeTemplate::VectorTimesScalar => "Vector times scalar"@,
    }
}

impl MyNodeTemplate {
    /// The name shown in the node-creation search menu; one entry per
    /// variant, with no fallback case.
    pub fn node_finder_label(&self) -> (s: &'static str)
        ensures
            s@ == spec_finder_label(*self),
    {
        match self {
            MyNodeTemplate::MakeVector => "New vector",
            MyNodeTemplate::MakeScalar => "New scalar",
            MyNodeTemplate::AddScalar => "Scalar add",
            MyNodeTemplate::SubtractScalar => "Scalar subtract",
            MyNodeTemplate::AddVector => "Vector add",
            MyNodeTemplate::SubtractVector => "Vector subtract",
            MyNodeTemplate::VectorTimesScalar => "Vector times scalar",
        }
    }

    /// The label drawn on an instantiated node: the same text as the
    /// finder label, as an owned string.
    pub fn node_graph_label(&self) -> (s: String)
        ensures
            s@ == spec_finder_label(*self),
    {
        String::from_str(self.node_finder_label())
    }

    /// The payload to attach to a node built from this template.
    pub fn user_data(&self) -> (d: MyNodeData)
        ensures
            d == (MyNodeData { template: *self }),
    {
        MyNodeData { template: *self }
    }
}

/// The fixed order in which the catalog lists its templates.
pub open spec fn all_templates_spec() -> Seq<MyNodeTemplate> {
    seq![
        MyNodeTemplate::MakeVector,
        MyNodeTemplate::MakeScalar,
        MyNodeTemplate::AddScalar,
        MyNodeTemplate::SubtractScalar,
        MyNodeTemplate::VectorTimesScalar,
        MyNodeTemplate::AddVector,
        MyNodeTemplate::SubtractVector,
    ]
}

/// The full catalog surfaced to a "create node" menu: always the same
/// seven templates in the same order.
pub fn all_templates() -> (ts: Vec<MyNodeTemplate>)
    ensures
        ts@ == all_templates_spec(),
{
    let ts = vec![
        MyNodeTemplate::MakeVector,
        MyNodeTemplate::MakeScalar,
        MyNodeTemplate::AddScalar,
        MyNodeTemplate::SubtractScalar,
        MyNodeTemplate::VectorTimesScalar,
        MyNodeTemplate::AddVector,
        MyNodeTemplate::SubtractVector,
    ];
    proof {
        assert(ts@ =~= all_templates_spec());
    }
    ts
}

/// A scalar input port as every template declares one: the given name,
/// a zero default, editable or wired.
pub open spec fn scalar_in(name: Seq<char>) -> InPortSpec {
    InPortSpec {
        name,
        typ: MyDataType::Scalar,
        value: MyValueType::Scalar { value: 0 },
        kind: InputParamKind::ConnectionOrConstant,
    }
}

/// A vector input port as every template declares one: the given name,
/// a zero default, editable or wired.
pub open spec fn vector_in(name: Seq<char>) -> InPortSpec {
    InPortSpec {
        name,
        typ: MyDataType::Vec2,
        value: MyValueType::Vec2 { value: Vec2Data { x: 0, y: 0 } },
        kind: InputParamKind::ConnectionOrConstant,
    }
}

/// An output port with the given name and type.
pub open spec fn out_port(name: Seq<char>, typ: MyDataType) -> OutPortSpec {
    OutPortSpec { name, typ }
}

/// The input ports each template declares, in declaration order.
pub open spec fn template_inputs(t: MyNodeTemplate) -> Seq<InPortSpec> {
    match t {
        MyNodeTemplate::MakeVector => seq![scalar_in("x"@), scalar_in("y"@)],
        MyNodeTemplate::MakeScalar => seq![scalar_in("value"@)],
        MyNodeTemplate::AddScalar => seq![scalar_in("A"@), scalar_in("B"@)],
        MyNodeTemplate::SubtractScalar => seq![scalar_in("A"@), scalar_in("B"@)],
        MyNodeTemplate::VectorTimesScalar => seq![scalar_in("scalar"@), vector_in("vector"@)],
        MyNodeTemplate::AddVector => seq![vector_in("v1"@), vector_in("v2"@)],
        MyNodeTemplate::SubtractVector => seq![vector_in("v1"@), vector_in("v2"@)],
    }
}

/// The output ports each template declares, in declaration order.
pub open spec fn template_outputs(t: MyNodeTemplate) -> Seq<OutPortSpec> {
    match t {
        MyNodeTemplate::MakeVector => seq![out_port("out"@, MyDataType::Vec2)],
        MyNodeTemplate::MakeScalar => seq![out_port("out"@, MyDataType::Scalar)],
        MyNodeTemplate::AddScalar => seq![out_port("out"@, MyDataType::Scalar)],
        MyNodeTemplate::SubtractScalar => seq![out_port("out"@, MyDataType::Scalar)],
        MyNodeTemplate::VectorTimesScalar => seq![out_port("out"@, MyDataType::Vec2)],
        MyNodeTemplate::AddVector => seq![out_port("out"@, MyDataType::Vec2)],
        MyNodeTemplate::SubtractVector => seq![out_port("out"@, MyDataType::Vec2)],
    }
}

/// The catalog covers every template variant exactly once: it has
/// seven entries, each variant occurs, and no two entries are equal.
pub proof fn lemma_all_templates_complete()
    ensures
        all_templates_spec().len() == 7,
        forall|t: MyNodeTemplate| all_templates_spec().contains(t),
        forall|i: int, j: int|
            0 <= i < j < all_templates_spec().len() ==> all_templates_spec()[i] != all_templates_spec()[j],
{
    assert forall|t: MyNodeTemplate| all_templates_spec().contains(t) by {
        let s = all_templates_spec();
        match t {
            MyNodeTemplate::MakeVector => assert(s[0] == t),
            MyNodeTemplate::MakeScalar => assert(s[1] == t),
            MyNodeTemplate::AddScalar => assert(s[2] == t),
            MyNodeTemplate::SubtractScalar => assert(s[3] == t),
            MyNodeTemplate::VectorTimesScalar => assert(s[4] == t),
            MyNodeTemplate::AddVector => assert(s[5] == t),
            MyNodeTemplate::SubtractVector => assert(s[6] == t),
        }
    }
}

/// Appends a scalar input port with a zero default to `node_id`,
/// leaving everything else in the graph as it was.
fn add_scalar_input(graph: &mut Graph, node_id: NodeId, name: &str)
    requires
        old(graph).wf(),
        old(graph).contains(node_id),
    ensures
        final(graph).wf(),
        final(graph).slots@.len() == old(graph).slots@.len(),
        final(graph).contains(node_id),
        inputs_view(final(graph).node_of(node_id).inputs@) == inputs_view(
            old(graph).node_of(node_id).inputs@,
        ).push(scalar_in(name@)),
        final(graph).node_of(node_id).outputs@ == old(graph).node_of(node_id).outputs@,
        final(graph).node_of(node_id).label == old(graph).node_of(node_id).label,
        final(graph).node_of(node_id).user_data == old(graph).node_of(node_id).user_data,
        forall|m: NodeId| final(graph).contains(m) == old(graph).contains(m),
        forall|m: NodeId|
            m != node_id && old(graph).contains(m) ==> final(graph).node_of(m) == old(
                graph,
            ).node_of(m),
        final(graph).connections@ == old(graph).connections@,
{
    graph.add_input_param(
        node_id,
        String::from_str(name),
        MyDataType::Scalar,
        MyValueType::Scalar { value: 0 },
        InputParamKind::ConnectionOrConstant,
    );
    proof {
        assert(inputs_view(graph.node_of(node_id).inputs@) =~= inputs_view(
            old(graph).node_of(node_id).inputs@,
        ).push(scalar_in(name@)));
    }
}

/// Appends a vector input port with a zero default to `node_id`,
/// leaving everything else in the graph as it was.
fn add_vector_input(graph: &mut Graph, node_id: NodeId, name: &str)
    requires
        old(graph).wf(),
        old(graph).contains(node_id),
    ensures
        final(graph).wf(),
        final(graph).slots@.len() == old(graph).slots@.len(),
        final(graph).contains(node_id),
        inputs_view(final(graph).node_of(node_id).inputs@) == inputs_view(
            old(graph).node_of(node_id).inputs@,
        ).push(vector_in(name@)),
        final(graph).node_of(node_id).outputs@ == old(graph).node_of(node_id).outputs@,
        final(graph).node_of(node_id).label == old(graph).node_of(node_id).label,
        final(graph).node_of(node_id).user_data == old(graph).node_of(node_id).user_data,
        forall|m: NodeId| final(graph).contains(m) == old(graph).contains(m),
        forall|m: NodeId|
            m != node_id && old(graph).contains(m) ==> final(graph).node_of(m) == old(
                graph,
            ).node_of(m),
        final(graph).connections@ == old(graph).connections@,
{
    graph.add_input_param(
        node_id,
        String::from_str(name),
        MyDataType::Vec2,
        MyValueType::Vec2 { value: Vec2Data { x: 0, y: 0 } },
        InputParamKind::ConnectionOrConstant,
    );
    proof {
        assert(inputs_view(graph.node_of(node_id).inputs@) =~= inputs_view(
            old(graph).node_of(node_id).inputs@,
        ).push(vector_in(name@)));
    }
}

/// Appends an output port of the given type to `node_id`, leaving
/// everything else in the graph as it was.
fn add_output(graph: &mut Graph, node_id: NodeId, name: &str, typ: MyDataType)
    requires
        old(graph).wf(),
        old(graph).contains(node_id),
    ensures
        final(graph).wf(),
        final(graph).slots@.len() == old(graph).slots@.len(),
        final(graph).contains(node_id),
        outputs_view(final(graph).node_of(node_id).outputs@) == outputs_view(
            old(graph).node_of(node_id).outputs@,
        ).push(out_port(name@, typ)),
        final(graph).node_of(node_id).inputs@ == old(graph).node_of(node_id).inputs@,
        final(graph).node_of(node_id).label == old(graph).node_of(node_id).label,
        final(graph).node_of(node_id).user_data == old(graph).node_of(node_id).user_data,
        forall|m: NodeId| final(graph).contains(m) == old(graph).contains(m),
        forall|m: NodeId|
            m != node_id && old(graph).contains(m) ==> final(graph).node_of(m) == old(
                graph,
            ).node_of(m),
        final(graph).connections@ == old(graph).connections@,
{
    graph.add_output_param(node_id, String::from_str(name), typ);
    proof {
        assert(outputs_view(graph.node_of(node_id).outputs@) =~= outputs_view(
            old(graph).node_of(node_id).outputs@,
        ).push(out_port(name@, typ)));
    }
}

impl MyNodeTemplate {
    /// Appends this template's input and output ports to a present
    /// node, in declaration order, each with its fixed type and zero
    /// default: exactly the ports `template_inputs` and
    /// `template_outputs` describe. Total over the catalog — there is
    /// no error path — and everything else in the graph stays as it
    /// was.
    pub fn build_node(&self, graph: &mut Graph, node_id: NodeId)
        requires
            old(graph).wf(),
            old(graph).contains(node_id),
        ensures
            final(graph).wf(),
            final(graph).slots@.len() == old(graph).slots@.len(),
            final(graph).contains(node_id),
            inputs_view(final(graph).node_of(node_id).inputs@) == inputs_view(
                old(graph).node_of(node_id).inputs@,
            ) + template_inputs(*self),
            outputs_view(final(graph).node_of(node_id).outputs@) == outputs_view(
                old(graph).node_of(node_id).outputs@,
            ) + template_outputs(*self),
            final(graph).node_of(node_id).label == old(graph).node_of(node_id).label,
            final(graph).node_of(node_id).user_data == old(graph).node_of(node_id).user_data,
            forall|m: NodeId| final(graph).contains(m) == old(graph).contains(m),
            forall|m: NodeId|
                m != node_id && old(graph).contains(m) ==> final(graph).node_of(m) == old(
                    graph,
                ).node_of(m),
            final(graph).connections@ == old(graph).connections@,
    {
        match self {
            MyNodeTemplate::AddScalar => {
                add_scalar_input(graph, node_id, "A");
                add_scalar_input(graph, node_id, "B");
                add_output(graph, node_id, "out", MyDataType::Scalar);
            },
            MyNodeTemplate::SubtractScalar => {
                add_scalar_input(graph, node_id, "A");
                add_scalar_input(graph, node_id, "B");
                add_output(graph, node_id, "out", MyDataType::Scalar);
            },
            MyNodeTemplate::VectorTimesScalar => {
                add_scalar_input(graph, node_id, "scalar");
                add_vector_input(graph, node_id, "vector");
                add_output(graph, node_id, "out", MyDataType::Vec2);
            },
            MyNodeTemplate::AddVector => {
                add_vector_input(graph, node_id, "v1");
                add_vector_input(graph, node_id, "v2");
                add_output(graph, node_id, "out", MyDataType::Vec2);
            },
            MyNodeTemplate::SubtractVector => {
                add_vector_input(graph, node_id, "v1");
                add_vector_input(graph, node_id, "v2");
                add_output(graph, node_id, "out", MyDataType::Vec2);
            },
            MyNodeTemplate::MakeVector => {
                add_scalar_input(graph, node_id, "x");
                add_scalar_input(graph, node_id, "y");
                add_output(graph, node_id, "out", MyDataType::Vec2);
            },
            MyNodeTemplate::MakeScalar => {
                add_scalar_input(graph, node_id, "value");
                add_output(graph, node_id, "out", MyDataType::Scalar);
            },
        }
        proof {
            assert(inputs_view(graph.node_of(node_id).inputs@) =~= inputs_view(
                old(graph).node_of(node_id).inputs@,
            ) + template_inputs(*self));
            assert(outputs_view(graph.node_of(node_id).outputs@) =~= outputs_view(
                old(graph).node_of(node_id).outputs@,
            ) + template_outputs(*self));
        }
    }
}

/// Materializes a template into the graph as the host's node-creation
/// menu does: a fresh node labelled with the template's name, carrying
/// the template as payload, with exactly the template's ports.
pub fn create_node(graph: &mut Graph, t: MyNodeTemplate) -> (n: NodeId)
    requires
        old(graph).wf(),
    ensures
        final(graph).wf(),
        n.idx == old(graph).slots@.len(),
        !old(graph).contains(n),
        final(graph).contains(n),
        final(graph).slots@.len() == old(graph).slots@.len() + 1,
        inputs_view(final(graph).node_of(n).inputs@) == template_inputs(t),
        outputs_view(final(graph).node_of(n).outputs@) == template_outputs(t),
        final(graph).node_of(n).label@ == spec_finder_label(t),
        final(graph).node_of(n).user_data == (MyNodeData { template: t }),
        forall|m: NodeId| m != n ==> final(graph).contains(m) == old(graph).contains(m),
        forall|m: NodeId|
            m != n && old(graph).contains(m) ==> final(graph).node_of(m) == old(graph).node_of(m),
        final(graph).connections@ == old(graph).connections@,
{
    let n = graph.add_node(t.node_graph_label(), t.user_data());
    proof {
        assert(graph.node_of(n).inputs@ =~= Seq::<InputParam>::empty());
        assert(graph.node_of(n).outputs@ =~= Seq::<OutputParam>::empty());
        assert(inputs_view(graph.node_of(n).inputs@) =~= Seq::<InPortSpec>::empty());
        assert(outputs_view(graph.node_of(n).outputs@) =~= Seq::<OutPortSpec>::empty());
    }
    t.build_node(graph, n);
    proof {
        assert(Seq::<InPortSpec>::empty() + template_inputs(t) =~= template_inputs(t));
        assert(Seq::<OutPortSpec>::empty() + template_outputs(t) =~= template_outputs(t));
    }
    n
}

/// Instantiation is deterministic: the ports of a node built from a
/// template are a function of the template alone, so two such nodes —
/// in the same graph or in different ones — carry equal port lists
/// under the abstract view, that is, equal up to node identity.
pub proof fn lemma_instantiation_deterministic(
    g1: Graph,
    n1: NodeId,
    g2: Graph,
    n2: NodeId,
    t: MyNodeTemplate,
)
    requires
        inputs_view(g1.node_of(n1).inputs@) == template_inputs(t),
        outputs_view(g1.node_of(n1).outputs@) == template_outputs(t),
        inputs_view(g2.node_of(n2).inputs@) == template_inputs(t),
        outputs_view(g2.node_of(n2).outputs@) == template_outputs(t),
    ensures
        inputs_view(g1.node_of(n1).inputs@) == inputs_view(g2.node_of(n2).inputs@),
        outputs_view(g1.node_of(n1).outputs@) == outputs_view(g2.node_of(n2).outputs@),
{
}

} // verus!
