//! Visual-programming node graph: nodes with typed ports, and connections
//! between them.  Node identifiers are unique; removing a node removes its
//! connections with it.

use vstd::prelude::*;
use vstd::string::StringExecFns;
use crate::common::str_eq;

verus! {

broadcast use vstd::string::to_string_from_display_ensures_for_str;

/// Node parameters carry arbitrary JSON values; the graph stores them
/// opaquely and never looks inside.
#[verifier::external_type_specification]
#[verifier::external_body]
pub struct ExValue(serde_json::Value);

/// Types of value a port carries.
#[derive(Debug, Clone, Copy, PartialEq, Eq, Structural)]
pub enum PortType {
    Float,
    Vec2,
    Vec3,
    Vec4,
    Color,
    Texture,
    Audio,
    Geometry,
    Shader,
    Any,
}

/// A port on a graph node; `connected_to` names a peer as
/// "node id:port name".
#[derive(Debug, Clone)]
pub struct GraphPort {
    pub name: String,
    pub port_type: PortType,
    pub connected_to: Option<String>,
}

impl GraphPort {
    pub fn new(name: String, port_type: PortType) -> (p: GraphPort)
        ensures
            p.name == name,
            p.port_type == port_type,
            p.connected_to is None,
    {
        GraphPort { name, port_type, connected_to: None }
    }
}

/// A connection between an output port and an input port.
#[derive(Debug)]
pub struct GraphConnection {
    pub from_node: String,
    pub from_port: String,
    pub to_node: String,
    pub to_port: String,
}

impl GraphConnection {
    pub fn new(from_node: String, from_port: String, to_node: String, to_port: String) -> (c:
        GraphConnection)
        ensures
            c.from_node == from_node,
            c.from_port == from_port,
            c.to_node == to_node,
            c.to_port == to_port,
    {
        GraphConnection { from_node, from_port, to_node, to_port }
    }

    /// An equal connection value.
    pub fn duplicate(&self) -> (c: GraphConnection)
        ensures
            c == *self,
    {
        GraphConnection {
            from_node: self.from_node.clone(),
            from_port: self.from_port.clone(),
            to_node: self.to_node.clone(),
            to_port: self.to_port.clone(),
        }
    }
}

/// A node: identifier, type tag, editor position (two bit-pattern words),
/// ports and opaque parameters.
#[derive(Debug)]
pub struct GraphNode {
    pub id: String,
    pub node_type: String,
    pub position: [u32; 2],
    pub inputs: Vec<GraphPort>,
    pub outputs: Vec<GraphPort>,
    pub parameters: Vec<(String, serde_json::Value)>,
}

impl GraphNode {
    pub fn new(id: String, node_type: String, position: [u32; 2]) -> (n: GraphNode)
        ensures
            n.id == id,
            n.node_type == node_type,
            n.position == position,
            n.inputs@.len() == 0,
            n.outputs@.len() == 0,
            n.parameters@.len() == 0,
    {
        GraphNode {
            id,
            node_type,
            position,
            inputs: Vec::new(),
            outputs: Vec::new(),
            parameters: Vec::new(),
        }
    }

    pub fn add_input(&mut self, name: String, port_type: PortType)
        ensures
            final(self).inputs@.len() == old(self).inputs@.len() + 1,
            final(self).inputs@.last().name == name,
            final(self).inputs@.last().port_type == port_type,
            final(self).inputs@.last().connected_to is None,
            final(self).inputs@.drop_last() == old(self).inputs@,
            final(self).outputs == old(self).outputs,
            final(self).id == old(self).id,
            final(self).node_type == old(self).node_type,
            final(self).position == old(self).position,
            final(self).parameters == old(self).parameters,
    {
        self.inputs.push(GraphPort::new(name, port_type));
    }

    pub fn add_output(&mut self, name: String, port_type: PortType)
        ensures
            final(self).outputs@.len() == old(self).outputs@.len() + 1,
            final(self).outputs@.last().name == name,
            final(self).outputs@.last().port_type == port_type,
            final(self).outputs@.last().connected_to is None,
            final(self).outputs@.drop_last() == old(self).outputs@,
            final(self).inputs == old(self).inputs,
            final(self).id == old(self).id,
            final(self).node_type == old(self).node_type,
            final(self).position == old(self).position,
            final(self).parameters == old(self).parameters,
    {
        self.outputs.push(GraphPort::new(name, port_type));
    }
}

/// The nodes of `s` whose identifier is not `id`, in order.
pub open spec fn nodes_without(s: Seq<GraphNode>, id: Seq<char>) -> Seq<GraphNode>
    decreases s.len(),
{
    if s.len() == 0 {
        Seq::empty()
    } else if s.last().id@ == id {
        nodes_without(s.drop_last(), id)
    } else {
        nodes_without(s.drop_last(), id).push(s.last())
    }
}

/// The connections of `s` that touch neither end of node `id`, in order.
pub open spec fn connections_without(s: Seq<GraphConnection>, id: Seq<char>) -> Seq<
    GraphConnection,
>
    decreases s.len(),
{
    if s.len() == 0 {
        Seq::empty()
    } else if s.last().from_node@ == id || s.last().to_node@ == id {
        connections_without(s.drop_last(), id)
    } else {
        connections_without(s.drop_last(), id).push(s.last())
    }
}

/// The connections of `s` that touch node `id` at either end, in order.
pub open spec fn connections_of(s: Seq<GraphConnection>, id: Seq<char>) -> Seq<GraphConnection>
    decreases s.len(),
{
    if s.len() == 0 {
        Seq::empty()
    } else if s.last().from_node@ == id || s.last().to_node@ == id {
        connections_of(s.drop_last(), id).push(s.last())
    } else {
        connections_of(s.drop_last(), id)
    }
}

/// The connections of `s` other than the one from
/// (`from_node`, `from_port`) to (`to_node`, `to_port`), in order.
pub open spec fn connections_disconnected(
    s: Seq<GraphConnection>,
    from_node: Seq<char>,
    from_port: Seq<char>,
    to_node: Seq<char>,
    to_port: Seq<char>,
) -> Seq<GraphConnection>
    decreases s.len(),
{
    if s.len() == 0 {
        Seq::empty()
    } else if s.last().from_node@ == from_node && s.last().from_port@ == from_port
        && s.last().to_node@ == to_node && s.last().to_port@ == to_port {
        connections_disconnected(s.drop_last(), from_node, from_port, to_node, to_port)
    } else {
        connections_disconnected(s.drop_last(), from_node, from_port, to_node, to_port).push(
            s.last(),
        )
    }
}

/// A visual programming graph.
#[derive(Debug)]
pub struct NodeGraph {
    pub name: String,
    pub nodes: Vec<GraphNode>,
    pub connections: Vec<GraphConnection>,
}

impl NodeGraph {
    /// Node identifiers are unique.
    pub open spec fn wf(self) -> bool {
        forall|i: int, j: int|
            0 <= i < j < self.nodes@.len() ==> self.nodes@[i].id@ != self.nodes@[j].id@
    }

    /// Some node carries the identifier.
    pub open spec fn has_node(self, id: Seq<char>) -> bool {
        exists|i: int| 0 <= i < self.nodes@.len() && (#[trigger] self.nodes@[i]).id@ == id
    }

    pub fn new(name: String) -> (g: NodeGraph)
        ensures
            g.name == name,
            g.nodes@.len() == 0,
            g.connections@.len() == 0,
            g.wf(),
    {
        NodeGraph { name, nodes: Vec::new(), connections: Vec::new() }
    }

    /// Insert the node, replacing any node that already carries its
    /// identifier.
    pub fn add_node(&mut self, node: GraphNode)
        requires
            old(self).wf(),
        ensures
            final(self).wf(),
            final(self).has_node(node.id@),
            final(self).name == old(self).name,
            final(self).connections == old(self).connections,
            !old(self).has_node(node.id@) ==> final(self).nodes@ == old(self).nodes@.push(node),
            old(self).has_node(node.id@) ==> exists|k: int|
                0 <= k < old(self).nodes@.len() && (#[trigger] old(self).nodes@[k]).id@ == node.id@
                    && final(self).nodes@ == old(self).nodes@.update(k, node),
    {
        let n = self.nodes.len();
        let mut i: usize = 0;
        while i < n
            invariant
                *self == *old(self),
                old(self).wf(),
                n == self.nodes@.len(),
                i <= n,
                forall|k: int| 0 <= k < i ==> (#[trigger] self.nodes@[k]).id@ != node.id@,
            decreases n - i,
        {
            if str_eq(self.nodes[i].id.as_str(), node.id.as_str()) {
                let ghost i0 = i as int;
                let ghost node_id_view = node.id@;
                self.nodes[i] = node;
                proof {
                    let nodes_new = self.nodes@;
                    assert(nodes_new =~= old(self).nodes@.update(i0, node));
                    assert(node_id_view == old(self).nodes@[i0].id@);
                    assert forall|p: int, q: int|
                        0 <= p < q < nodes_new.len() implies nodes_new[p].id@
                        != nodes_new[q].id@ by {
                        if p == i0 {
                            assert(nodes_new[p] == node);
                        } else {
                            assert(nodes_new[p] == old(self).nodes@[p]);
                        }
                        if q == i0 {
                            assert(nodes_new[q] == node);
                        } else {
                            assert(nodes_new[q] == old(self).nodes@[q]);
                        }
                        assert(old(self).nodes@[p].id@ != old(self).nodes@[q].id@);
                    }
                    assert(nodes_new[i0].id@ == node_id_view);
                }
                return ;
            }
            i = i + 1;
        }
        self.nodes.push(node);
        proof {
            assert(self.nodes@.last() == node);
            assert(self.nodes@.drop_last() =~= old(self).nodes@);
            assert forall|p: int, q: int|
                0 <= p < q < self.nodes@.len() implies self.nodes@[p].id@ != self.nodes@[q].id@ by {
                if q < self.nodes@.len() - 1 {
                    assert(self.nodes@[p] == old(self).nodes@[p]);
                    assert(self.nodes@[q] == old(self).nodes@[q]);
                } else {
                    assert(self.nodes@[p] == old(self).nodes@[p]);
                    assert(self.nodes@[q] == node);
                }
            }
        }
    }

    /// Remove the node carrying the identifier, with every connection that
    /// touches it; without such a node, only such connections go.
    pub fn remove_node(&mut self, node_id: &str)
        requires
            old(self).wf(),
        ensures
            final(self).wf(),
            !final(self).has_node(node_id@),
            final(self).name == old(self).name,
            final(self).nodes@ == nodes_without(old(self).nodes@, node_id@),
            final(self).connections@ == connections_without(old(self).connections@, node_id@),
    {
        let ghost old_nodes = self.nodes@;
        let ghost old_conns = self.connections@;
        let ghost pre_name = self.name;
        let mut kept: Vec<GraphNode> = Vec::new();
        let mut rest: Vec<GraphNode> = Vec::new();
        core::mem::swap(&mut rest, &mut self.nodes);
        let ghost rest_view = rest@;
        while rest.len() > 0
            invariant
                rest_view == old_nodes,
                rest@.len() <= rest_view.len(),
                rest@ =~= rest_view.subrange(
                    rest_view.len() - rest@.len(),
                    rest_view.len() as int,
                ),
                kept@ == nodes_without(
                    rest_view.take(rest_view.len() - rest@.len()),
                    node_id@,
                ),
            decreases rest@.len(),
        {
            let ghost processed = rest_view.len() - rest@.len();
            let item = rest.remove(0);
            proof {
                assert(item == rest_view[processed]);
            }
            if !str_eq(item.id.as_str(), node_id) {
                kept.push(item);
            }
            proof {
                assert(rest_view.take(processed + 1).drop_last() =~= rest_view.take(processed));
                assert(rest_view.take(processed + 1).last() == rest_view[processed]);
                assert(rest@ =~= rest_view.subrange(
                    rest_view.len() - rest@.len(),
                    rest_view.len() as int,
                ));
            }
        }
        proof {
            assert(rest_view.take(rest_view.len() as int) =~= rest_view);
        }
        self.nodes = kept;
        let mut kept_c: Vec<GraphConnection> = Vec::new();
        let mut rest_c: Vec<GraphConnection> = Vec::new();
        core::mem::swap(&mut rest_c, &mut self.connections);
        let ghost rest_c_view = rest_c@;
        while rest_c.len() > 0
            invariant
                rest_c_view == old_conns,
                rest_c@.len() <= rest_c_view.len(),
                rest_c@ =~= rest_c_view.subrange(
                    rest_c_view.len() - rest_c@.len(),
                    rest_c_view.len() as int,
                ),
                kept_c@ == connections_without(
                    rest_c_view.take(rest_c_view.len() - rest_c@.len()),
                    node_id@,
                ),
            decreases rest_c@.len(),
        {
            let ghost processed = rest_c_view.len() - rest_c@.len();
            let item = rest_c.remove(0);
            proof {
                assert(item == rest_c_view[processed]);
            }
            if !str_eq(item.from_node.as_str(), node_id) && !str_eq(item.to_node.as_str(), node_id) {
                kept_c.push(item);
            }
            proof {
                assert(rest_c_view.take(processed + 1).drop_last() =~= rest_c_view.take(
                    processed,
                ));
                assert(rest_c_view.take(processed + 1).last() == rest_c_view[processed]);
                assert(rest_c@ =~= rest_c_view.subrange(
                    rest_c_view.len() - rest_c@.len(),
                    rest_c_view.len() as int,
                ));
            }
        }
        proof {
            assert(rest_c_view.take(rest_c_view.len() as int) =~= rest_c_view);
        }
        self.connections = kept_c;
        proof {
            lemma_nodes_without_removes(old_nodes, node_id@);
            lemma_nodes_without_subset(old_nodes, node_id@);
        }
    }

    /// Record a connection: succeeds exactly when both end nodes exist;
    /// otherwise the missing end is named and nothing changes.
    pub fn connect(&mut self, connection: GraphConnection) -> (r: Result<(), String>)
        ensures
            r is Ok <==> old(self).has_node(connection.from_node@) && old(self).has_node(
                connection.to_node@,
            ),
            r is Ok ==> final(self).connections@ == old(self).connections@.push(connection)
                && final(self).nodes == old(self).nodes && final(self).name == old(self).name,
            r is Err ==> *final(self) == *old(self),
            !old(self).has_node(connection.from_node@) ==> (r matches Err(m) && m@ ==
                "Source node '"@ + connection.from_node@ + "' not found"@),
            old(self).has_node(connection.from_node@) && !old(self).has_node(connection.to_node@)
                ==> (r matches Err(m) && m@ == "Target node '"@ + connection.to_node@
                + "' not found"@),
    {
        if !self.contains_node(connection.from_node.as_str()) {
            let mut msg = "Source node '".to_string();
            msg.append(connection.from_node.as_str());
            msg.append("' not found");
            return Err(msg);
        }
        if !self.contains_node(connection.to_node.as_str()) {
            let mut msg = "Target node '".to_string();
            msg.append(connection.to_node.as_str());
            msg.append("' not found");
            return Err(msg);
        }
        self.connections.push(connection);
        Ok(())
    }

    /// Whether a node with the identifier exists.
    pub fn contains_node(&self, id: &str) -> (r: bool)
        ensures
            r == self.has_node(id@),
    {
        let n = self.nodes.len();
        let mut i: usize = 0;
        while i < n
            invariant
                n == self.nodes@.len(),
                i <= n,
                forall|k: int| 0 <= k < i ==> (#[trigger] self.nodes@[k]).id@ != id@,
            decreases n - i,
        {
            if str_eq(self.nodes[i].id.as_str(), id) {
                return true;
            }
            i = i + 1;
        }
        false
    }

    /// Remove the one connection between the named ports, if recorded.
    pub fn disconnect(&mut self, from_node: &str, from_port: &str, to_node: &str, to_port: &str)
        ensures
            final(self).connections@ == connections_disconnected(
                old(self).connections@,
                from_node@,
                from_port@,
                to_node@,
                to_port@,
            ),
            final(self).nodes == old(self).nodes,
            final(self).name == old(self).name,
    {
        let mut kept: Vec<GraphConnection> = Vec::new();
        let mut rest: Vec<GraphConnection> = Vec::new();
        core::mem::swap(&mut rest, &mut self.connections);
        let ghost rest_view = rest@;
        while rest.len() > 0
            invariant
                rest@.len() <= rest_view.len(),
                rest@ =~= rest_view.subrange(
                    rest_view.len() - rest@.len(),
                    rest_view.len() as int,
                ),
                kept@ == connections_disconnected(
                    rest_view.take(rest_view.len() - rest@.len()),
                    from_node@,
                    from_port@,
                    to_node@,
                    to_port@,
                ),
            decreases rest@.len(),
        {
            let ghost processed = rest_view.len() - rest@.len();
            let item = rest.remove(0);
            proof {
                assert(item == rest_view[processed]);
            }
            let matches_all = str_eq(item.from_node.as_str(), from_node) && str_eq(
                item.from_port.as_str(),
                from_port,
            ) && str_eq(item.to_node.as_str(), to_node) && str_eq(item.to_port.as_str(), to_port);
            if !matches_all {
                kept.push(item);
            }
            proof {
                assert(rest_view.take(processed + 1).drop_last() =~= rest_view.take(processed));
                assert(rest_view.take(processed + 1).last() == rest_view[processed]);
                assert(rest@ =~= rest_view.subrange(
                    rest_view.len() - rest@.len(),
                    rest_view.len() as int,
                ));
            }
        }
        proof {
            assert(rest_view.take(rest_view.len() as int) =~= rest_view);
        }
        self.connections = kept;
    }

    /// The connections touching the node, in recorded order.
    pub fn get_node_connections(&self, node_id: &str) -> (r: Vec<GraphConnection>)
        ensures
            r@ == connections_of(self.connections@, node_id@),
    {
        let mut out: Vec<GraphConnection> = Vec::new();
        let n = self.connections.len();
        let mut i: usize = 0;
        while i < n
            invariant
                n == self.connections@.len(),
                i <= n,
                out@ == connections_of(self.connections@.take(i as int), node_id@),
            decreases n - i,
        {
            let c = &self.connections[i];
            if str_eq(c.from_node.as_str(), node_id) || str_eq(c.to_node.as_str(), node_id) {
                out.push(c.duplicate());
            }
            proof {
                assert(self.connections@.take(i + 1 as int).drop_last() =~= self.connections@.take(
                    i as int,
                ));
                assert(self.connections@.take(i + 1 as int).last() == self.connections@[i as int]);
            }
            i = i + 1;
        }
        proof {
            assert(self.connections@.take(n as int) =~= self.connections@);
        }
        out
    }
}

/// A shader node: time and audio in, color out.
pub fn create_shader_node(id: String, position: [u32; 2]) -> (n: GraphNode)
    ensures
        n.id == id,
        n.node_type@ == "Shader"@,
        n.position == position,
        n.inputs@.len() == 2,
        n.inputs@[0].name@ == "Time"@ && n.inputs@[0].port_type == PortType::Float,
        n.inputs@[1].name@ == "Audio"@ && n.inputs@[1].port_type == PortType::Audio,
        n.outputs@.len() == 1,
        n.outputs@[0].name@ == "Color"@ && n.outputs@[0].port_type == PortType::Color,
{
    let mut node = GraphNode::new(id, "Shader".to_string(), position);
    node.add_input("Time".to_string(), PortType::Float);
    node.add_input("Audio".to_string(), PortType::Audio);
    node.add_output("Color".to_string(), PortType::Color);
    node
}

/// An audio-analyzer node: three band energies out.
pub fn create_audio_node(id: String, position: [u32; 2]) -> (n: GraphNode)
    ensures
        n.id == id,
        n.node_type@ == "AudioAnalyzer"@,
        n.position == position,
        n.inputs@.len() == 0,
        n.outputs@.len() == 3,
        n.outputs@[0].name@ == "Bass"@ && n.outputs@[0].port_type == PortType::Float,
        n.outputs@[1].name@ == "Mid"@ && n.outputs@[1].port_type == PortType::Float,
        n.outputs@[2].name@ == "Treble"@ && n.outputs@[2].port_type == PortType::Float,
{
    let mut node = GraphNode::new(id, "AudioAnalyzer".to_string(), position);
    node.add_output("Bass".to_string(), PortType::Float);
    node.add_output("Mid".to_string(), PortType::Float);
    node.add_output("Treble".to_string(), PortType::Float);
    node
}

/// A transform node: position, rotation and scale in, a transform out.
pub fn create_transform_node(id: String, position: [u32; 2]) -> (n: GraphNode)
    ensures
        n.id == id,
        n.node_type@ == "Transform"@,
        n.position == position,
        n.inputs@.len() == 3,
        n.inputs@[0].name@ == "Position"@ && n.inputs@[0].port_type == PortType::Vec3,
        n.inputs@[1].name@ == "Rotation"@ && n.inputs@[1].port_type == PortType::Vec3,
        n.inputs@[2].name@ == "Scale"@ && n.inputs@[2].port_type == PortType::Vec3,
        n.outputs@.len() == 1,
        n.outputs@[0].name@ == "Transform"@ && n.outputs@[0].port_type == PortType::Any,
{
    let mut node = GraphNode::new(id, "Transform".to_string(), position);
    node.add_input("Position".to_string(), PortType::Vec3);
    node.add_input("Rotation".to_string(), PortType::Vec3);
    node.add_input("Scale".to_string(), PortType::Vec3);
    node.add_output("Transform".to_string(), PortType::Any);
    node
}

/// An output node: color and geometry in.
pub fn create_output_node(id: String, position: [u32; 2]) -> (n: GraphNode)
    ensures
        n.id == id,
        n.node_type@ == "Output"@,
        n.position == position,
        n.inputs@.len() == 2,
        n.inputs@[0].name@ == "Color"@ && n.inputs@[0].port_type == PortType::Color,
        n.inputs@[1].name@ == "Geometry"@ && n.inputs@[1].port_type == PortType::Geometry,
        n.outputs@.len() == 0,
{
    let mut node = GraphNode::new(id, "Output".to_string(), position);
    node.add_input("Color".to_string(), PortType::Color);
    node.add_input("Geometry".to_string(), PortType::Geometry);
    node
}

/// Filtering a node identifier out leaves no node with it.
proof fn lemma_nodes_without_removes(s: Seq<GraphNode>, id: Seq<char>)
    ensures
        forall|i: int|
            0 <= i < nodes_without(s, id).len() ==> (#[trigger] nodes_without(s, id)[i]).id@ != id,
    decreases s.len(),
{
    if s.len() > 0 {
        lemma_nodes_without_removes(s.drop_last(), id);
        assert forall|i: int|
            0 <= i < nodes_without(s, id).len() implies (#[trigger] nodes_without(s, id)[i]).id@
            != id by {
            let prefix = nodes_without(s.drop_last(), id);
            if i < prefix.len() {
                assert(nodes_without(s, id)[i] == prefix[i]);
            }
        }
    }
}

/// Every node kept by the filter stood in the original sequence, and two
/// kept nodes stood apart; uniqueness is preserved.
proof fn lemma_nodes_without_subset(s: Seq<GraphNode>, id: Seq<char>)
    requires
        forall|i: int, j: int| 0 <= i < j < s.len() ==> s[i].id@ != s[j].id@,
    ensures
        forall|i: int, j: int|
            0 <= i < j < nodes_without(s, id).len() ==> nodes_without(s, id)[i].id@
                != nodes_without(s, id)[j].id@,
    decreases s.len(),
{
    if s.len() > 0 {
        lemma_nodes_without_subset(s.drop_last(), id);
        lemma_nodes_without_contains(s.drop_last(), id);
        let res = nodes_without(s, id);
        let prefix = nodes_without(s.drop_last(), id);
        assert forall|i: int, j: int| 0 <= i < j < res.len() implies res[i].id@ != res[j].id@ by {
            if s.last().id@ == id {
                assert(res[i] == prefix[i]);
                assert(res[j] == prefix[j]);
            } else if j < prefix.len() {
                assert(res[i] == prefix[i]);
                assert(res[j] == prefix[j]);
            } else {
                assert(res[j] == s.last());
                assert(res[i] == prefix[i]);
                let w = choose|w: int|
                    0 <= w < s.drop_last().len() && s.drop_last()[w] == prefix[i];
                assert(s[w] == prefix[i]);
                assert(s[w].id@ != s[s.len() - 1].id@);
            }
        }
    }
}

/// Every node the filter keeps appears in the sequence it filtered.
proof fn lemma_nodes_without_contains(s: Seq<GraphNode>, id: Seq<char>)
    ensures
        forall|i: int|
            0 <= i < nodes_without(s, id).len() ==> exists|j: int|
                0 <= j < s.len() && s[j] == #[trigger] nodes_without(s, id)[i],
    decreases s.len(),
{
    if s.len() > 0 {
        lemma_nodes_without_contains(s.drop_last(), id);
        assert forall|i: int| 0 <= i < nodes_without(s, id).len() implies exists|j: int|
            0 <= j < s.len() && s[j] == #[trigger] nodes_without(s, id)[i] by {
            if i < nodes_without(s.drop_last(), id).len() {
                let j = choose|j: int|
                    0 <= j < s.drop_last().len() && s.drop_last()[j] == nodes_without(
                        s.drop_last(),
                        id,
                    )[i];
                assert(s[j] == nodes_without(s, id)[i]);
            } else {
                assert(s[s.len() - 1] == nodes_without(s, id)[i]);
            }
        }
    }
}

} // verus!
