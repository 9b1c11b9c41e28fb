use vibevj::common::VibeVJError;
use vibevj::component::Component;
use vibevj::graph::GraphConnection;
use vibevj::graph::GraphNode;
use vibevj::graph::NodeGraph;
use vibevj::graph::PortType;
use vibevj::gui::add_connection;
use vibevj::gui::Connection;
use vibevj::gui::NodeEditor;
use vibevj::gui::RightPanel;
use vibevj::gui::Sequencer;
use vibevj::scene::NodeId;
use vibevj::scene::Scene;
use vibevj::scene::SceneNode;

#[test]
fn scene_starts_with_root_only() {
    let scene = Scene::new("Main Scene".to_string());
    assert_eq!(scene.root, NodeId::new(0));
    assert_eq!(scene.len(), 1);
    let root = scene.get_node(scene.root).unwrap();
    assert_eq!(root.name, "Root");
    assert!(root.children.is_empty());
}

#[test]
fn create_node_hands_out_fresh_ids() {
    let mut scene = Scene::new("s".to_string());
    let a = scene.create_node("a".to_string(), None).unwrap();
    let b = scene.create_node("b".to_string(), Some(a)).unwrap();
    assert_eq!(a, NodeId(1));
    assert_eq!(b, NodeId(2));
    assert_eq!(scene.len(), 3);
    assert_eq!(scene.get_node(a).unwrap().parent, Some(scene.root));
    assert_eq!(scene.get_node(b).unwrap().parent, Some(a));
    assert!(scene.get_node(a).unwrap().children.contains(&b));
    let ids = scene.node_ids();
    assert_eq!(ids, vec![NodeId(0), NodeId(1), NodeId(2)]);
}

#[test]
fn create_node_under_missing_parent_fails() {
    let mut scene = Scene::new("s".to_string());
    let r = scene.create_node("a".to_string(), Some(NodeId(77)));
    assert_eq!(
        r,
        Err(VibeVJError::SceneError("Parent node not found".to_string()))
    );
    assert_eq!(scene.len(), 1);
}

#[test]
fn remove_node_takes_descendants_along() {
    let mut scene = Scene::new("s".to_string());
    let a = scene.create_node("a".to_string(), None).unwrap();
    let b = scene.create_node("b".to_string(), Some(a)).unwrap();
    let c = scene.create_node("c".to_string(), Some(b)).unwrap();
    let other = scene.create_node("other".to_string(), None).unwrap();
    scene.remove_node(a).unwrap();
    assert!(scene.get_node(a).is_none());
    assert!(scene.get_node(b).is_none());
    assert!(scene.get_node(c).is_none());
    assert!(scene.get_node(other).is_some());
    assert!(!scene.get_node(scene.root).unwrap().children.contains(&a));
}

#[test]
fn root_cannot_be_removed() {
    let mut scene = Scene::new("s".to_string());
    let r = scene.remove_node(scene.root);
    assert_eq!(
        r,
        Err(VibeVJError::SceneError("Cannot remove root node".to_string()))
    );
}

#[test]
fn clear_keeps_root_and_restarts_ids() {
    let mut scene = Scene::new("s".to_string());
    scene.create_node("a".to_string(), None).unwrap();
    scene.create_node("b".to_string(), None).unwrap();
    scene.clear();
    assert_eq!(scene.len(), 1);
    assert_eq!(scene.next_id, 1);
    assert!(scene.get_node(scene.root).is_some());
}

#[test]
fn scene_node_children_deduplicate() {
    let mut node = SceneNode::new(NodeId(1), "n".to_string());
    node.add_child(NodeId(2));
    node.add_child(NodeId(3));
    node.add_child(NodeId(2));
    assert_eq!(node.children, vec![NodeId(2), NodeId(3)]);
    node.remove_child(NodeId(2));
    assert_eq!(node.children, vec![NodeId(3)]);
}

#[test]
fn components_are_found_by_type() {
    let mut node = SceneNode::new(NodeId(1), "n".to_string());
    assert!(node.get_component("Light").is_none());
    node.add_component(Component::Script { script_name: "pulse".to_string(), enabled: true });
    node.add_component(Component::Camera { fov: 1, near: 2, far: 3 });
    let c = node.get_component("Camera").unwrap();
    assert_eq!(c.component_type(), "Camera");
    assert!(matches!(c, Component::Camera { .. }));
    assert!(node.get_component("Light").is_none());
}

#[test]
fn graph_connect_checks_both_ends() {
    let mut graph = NodeGraph::new("g".to_string());
    graph.add_node(GraphNode::new("osc".to_string(), "AudioAnalyzer".to_string(), [0, 0]));
    graph.add_node(GraphNode::new("out".to_string(), "Output".to_string(), [0, 0]));
    let missing = graph.connect(GraphConnection::new(
        "nope".to_string(),
        "Bass".to_string(),
        "out".to_string(),
        "Color".to_string(),
    ));
    assert_eq!(missing, Err("Source node 'nope' not found".to_string()));
    let missing_target = graph.connect(GraphConnection::new(
        "osc".to_string(),
        "Bass".to_string(),
        "gone".to_string(),
        "Color".to_string(),
    ));
    assert_eq!(missing_target, Err("Target node 'gone' not found".to_string()));
    let ok = graph.connect(GraphConnection::new(
        "osc".to_string(),
        "Bass".to_string(),
        "out".to_string(),
        "Color".to_string(),
    ));
    assert!(ok.is_ok());
    assert_eq!(graph.connections.len(), 1);
}

#[test]
fn graph_remove_node_drops_its_connections() {
    let mut graph = NodeGraph::new("g".to_string());
    graph.add_node(GraphNode::new("a".to_string(), "t".to_string(), [0, 0]));
    graph.add_node(GraphNode::new("b".to_string(), "t".to_string(), [0, 0]));
    graph.add_node(GraphNode::new("c".to_string(), "t".to_string(), [0, 0]));
    graph
        .connect(GraphConnection::new(
            "a".to_string(),
            "o".to_string(),
            "b".to_string(),
            "i".to_string(),
        ))
        .unwrap();
    graph
        .connect(GraphConnection::new(
            "b".to_string(),
            "o".to_string(),
            "c".to_string(),
            "i".to_string(),
        ))
        .unwrap();
    assert_eq!(graph.get_node_connections("b").len(), 2);
    graph.remove_node("b");
    assert!(!graph.contains_node("b"));
    assert!(graph.connections.is_empty());
    assert!(graph.contains_node("a") && graph.contains_node("c"));
}

#[test]
fn graph_add_node_replaces_same_id() {
    let mut graph = NodeGraph::new("g".to_string());
    graph.add_node(GraphNode::new("a".to_string(), "first".to_string(), [0, 0]));
    graph.add_node(GraphNode::new("a".to_string(), "second".to_string(), [0, 0]));
    assert_eq!(graph.nodes.len(), 1);
    assert_eq!(graph.nodes[0].node_type, "second");
}

#[test]
fn graph_disconnect_removes_one_edge() {
    let mut graph = NodeGraph::new("g".to_string());
    graph.add_node(GraphNode::new("a".to_string(), "t".to_string(), [0, 0]));
    graph.add_node(GraphNode::new("b".to_string(), "t".to_string(), [0, 0]));
    graph
        .connect(GraphConnection::new(
            "a".to_string(),
            "o".to_string(),
            "b".to_string(),
            "i".to_string(),
        ))
        .unwrap();
    graph.disconnect("a", "o", "b", "i");
    assert!(graph.connections.is_empty());
}

#[test]
fn graph_ports_record_their_type() {
    let mut node = GraphNode::new("n".to_string(), "Shader".to_string(), [0, 0]);
    node.add_input("Time".to_string(), PortType::Float);
    node.add_output("Color".to_string(), PortType::Color);
    assert_eq!(node.inputs.len(), 1);
    assert_eq!(node.inputs[0].name, "Time");
    assert_eq!(node.inputs[0].port_type, PortType::Float);
    assert!(node.inputs[0].connected_to.is_none());
    assert_eq!(node.outputs[0].port_type, PortType::Color);
}

#[test]
fn editor_connections_deduplicate() {
    let mut connections: Vec<Connection> = Vec::new();
    let c = Connection { from_node: 1, from_socket: 10, to_node: 2, to_socket: 20 };
    add_connection(&mut connections, c);
    add_connection(&mut connections, c);
    let d = Connection { from_node: 2, from_socket: 21, to_node: 3, to_socket: 30 };
    add_connection(&mut connections, d);
    assert_eq!(connections, vec![c, d]);
}

#[test]
fn widget_constructors_start_empty() {
    let panel = RightPanel::new();
    assert!(panel.search_query.is_empty());
    let _editor = NodeEditor::new();
    let _sequencer = Sequencer::new();
}

#[test]
fn node_templates_have_expected_ports() {
    let shader = vibevj::graph::create_shader_node("s".to_string(), [0, 0]);
    assert_eq!(shader.node_type, "Shader");
    assert_eq!(shader.inputs.len(), 2);
    assert_eq!(shader.inputs[0].name, "Time");
    assert_eq!(shader.outputs[0].port_type, PortType::Color);
    let audio = vibevj::graph::create_audio_node("a".to_string(), [0, 0]);
    assert_eq!(audio.outputs.len(), 3);
    assert_eq!(audio.outputs[2].name, "Treble");
    let transform = vibevj::graph::create_transform_node("t".to_string(), [0, 0]);
    assert_eq!(transform.inputs.len(), 3);
    assert_eq!(transform.outputs[0].port_type, PortType::Any);
    let output = vibevj::graph::create_output_node("o".to_string(), [0, 0]);
    assert_eq!(output.inputs[1].port_type, PortType::Geometry);
    assert!(output.outputs.is_empty());
}
