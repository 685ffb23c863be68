//! Core data model of a typed visual node-graph editor.
//!
//! Nodes are instantiated from a fixed catalog of templates; each node
//! carries named, typed ports holding editable default values, and the
//! document tracks which node is currently active.

pub mod data_type;
pub mod graph;
pub mod state;
pub mod template;
pub mod value;

pub use data_type::MyDataType;
pub use state::{MyGraphState, MyResponse};
pub use template::{MyNodeData, MyNodeTemplate};
pub use value::MyValueType;
