//! Data model of the editor UI: panel selection, widget state and the
//! node-editor connection records.  Drawing lives with the windowing
//! layer; the state and its rules live here.

use vstd::prelude::*;

verus! {

/// What the center panel shows.
#[derive(Debug, Clone, Copy, PartialEq, Eq, Structural)]
pub enum PanelContent {
    Preview,
    SceneEditor,
    TimelineEditor,
}

/// Right panel: prefab and resource browser state.
#[derive(Debug, Clone, PartialEq, Eq)]
pub struct RightPanel {
    pub search_query: String,
}

impl RightPanel {
    pub fn new() -> (p: RightPanel)
        ensures
            p.search_query@ == Seq::<char>::empty(),
    {
        RightPanel { search_query: String::new() }
    }
}

/// Node editor widget state.
#[derive(Debug, Clone, Copy, PartialEq, Eq, Structural)]
pub struct NodeEditor {
}

impl NodeEditor {
    pub fn new() -> (e: NodeEditor)
        ensures
            e == (NodeEditor {  }),
    {
        NodeEditor {  }
    }
}

/// Scene sequencer widget state.
#[derive(Debug, Clone, Copy, PartialEq, Eq, Structural)]
pub struct Sequencer {
}

impl Sequencer {
    pub fn new() -> (s: Sequencer)
        ensures
            s == (Sequencer {  }),
    {
        Sequencer {  }
    }
}

/// Unique identifier of a node in the visual editor.
pub type EditorNodeId = u64;

/// Unique identifier of a node socket in the visual editor.
pub type SocketId = u64;

/// Whether a socket takes or produces a value.
#[derive(Debug, Clone, Copy, PartialEq, Eq, Structural)]
pub enum SocketType {
    Input,
    Output,
}

/// A connection between an output socket of one editor node and an input
/// socket of another.
#[derive(Debug, Clone, Copy, PartialEq, Eq, Structural, Hash)]
pub struct Connection {
    pub from_node: EditorNodeId,
    pub from_socket: SocketId,
    pub to_node: EditorNodeId,
    pub to_socket: SocketId,
}

/// The connections already recorded, with no duplicate entry.
pub open spec fn connections_unique(cs: Seq<Connection>) -> bool {
    forall|i: int, j: int| 0 <= i < j < cs.len() ==> cs[i] != cs[j]
}

/// Record a connection unless the identical connection is already there;
/// the list stays free of duplicates.
pub fn add_connection(connections: &mut Vec<Connection>, c: Connection)
    requires
        connections_unique(old(connections)@),
    ensures
        old(connections)@.contains(c) ==> final(connections)@ == old(connections)@,
        !old(connections)@.contains(c) ==> final(connections)@ == old(connections)@.push(c),
        connections_unique(final(connections)@),
        final(connections)@.contains(c),
{
    let n = connections.len();
    let mut i: usize = 0;
    while i < n
        invariant
            n == connections@.len(),
            i <= n,
            forall|k: int| 0 <= k < i ==> connections@[k] != c,
            connections_unique(connections@),
        decreases n - i,
    {
        if connections[i] == c {
            proof {
                assert(connections@.contains(c));
            }
            return ;
        }
        i = i + 1;
    }
    connections.push(c);
    proof {
        assert(connections@[old(connections)@.len() as int] == c);
        assert(connections@.contains(c));
    }
}

} // verus!
