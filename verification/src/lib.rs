use vstd::prelude::*;

pub mod bindings;
pub mod buffer;
pub mod cancellation;
pub mod capture;
pub mod capture_publisher;
pub mod configuration;
pub mod contracts;
pub mod echo;
pub mod geometry;
pub mod graph;
pub mod graph_laws;
pub mod identity;
pub mod ipc;
pub mod model_protocol;
pub mod model_inspection;
pub mod models;
pub mod monitor_inputs;
pub mod ordered;
pub mod overlay;
pub mod pipeline;
pub mod resources;
pub mod supervisor;
pub mod supervisor_laws;
pub mod portal;
pub mod presentation;
pub mod publication;
pub mod reader_background;
pub mod region_selection;
pub mod registry;
pub mod session_monitor;
pub mod speech;
pub mod startup;
pub mod text;
pub mod visual_capture;
pub mod visual_presentation;
pub mod visual_status;
pub mod voice;

verus! {

} // verus!
