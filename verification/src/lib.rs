//! Verified core of the Blueprint Editor plugin: the plain state and the
//! decisions of the node-graph editor, apart from drawing and file I/O.

pub mod text;
pub mod hex_color;
pub mod interaction;
pub mod graph;
pub mod layout;
pub mod paths;
pub mod plugin;
pub mod registry;
pub mod panel;
pub mod workspace;
pub mod compiler;
pub mod node_card;

pub use panel::BlueprintEditorPanel;
