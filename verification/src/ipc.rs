//! The names of the commands the WebViews invoke and of the events the
//! runtime emits to them.

use vstd::prelude::*;

verus! {

pub const CONFIGURATION_SNAPSHOT_COMMAND: &'static str = "configuration_snapshot";
pub const UPDATE_CONFIGURATION_COMMAND: &'static str = "update_configuration";
pub const BOOTSTRAP_COMMAND: &'static str = "runtime_bootstrap";
pub const SOURCE_SNAPSHOT_COMMAND: &'static str = "source_snapshot";
pub const START_CAPTURE_COMMAND: &'static str = "start_capture";
pub const STOP_CAPTURE_COMMAND: &'static str = "stop_capture";
pub const CAPTURE_STATUS_COMMAND: &'static str = "capture_status";
pub const VISUAL_CAPABILITIES_COMMAND: &'static str = "visual_capabilities";
pub const VISUAL_SOURCE_SNAPSHOT_COMMAND: &'static str = "visual_source_snapshot";
pub const VISUAL_STATUS_COMMAND: &'static str = "visual_status";
pub const SHOW_VISUAL_REGION_SELECTOR_COMMAND: &'static str = "show_visual_region_selector";
pub const COMPLETE_VISUAL_REGION_SELECTION_COMMAND: &'static str = "complete_visual_region_selection";
pub const CANCEL_VISUAL_REGION_SELECTION_COMMAND: &'static str = "cancel_visual_region_selection";
pub const START_VISUAL_TRANSLATION_COMMAND: &'static str = "start_visual_translation";
pub const STOP_VISUAL_TRANSLATION_COMMAND: &'static str = "stop_visual_translation";
pub const UPDATE_CAPTION_PRESENTATION_COMMAND: &'static str = "update_caption_presentation";
pub const UPDATE_VISUAL_PRESENTATION_COMMAND: &'static str = "update_visual_presentation";
pub const INFERENCE_RESOURCE_STATUS_COMMAND: &'static str = "inference_resource_status";
pub const REPORT_INFERENCE_RESOURCE_COMMAND: &'static str = "report_inference_resource";

pub const STATE_EVENT: &'static str = "runtime-state";
pub const CAPTURE_STATUS_EVENT: &'static str = "capture-status";
pub const VISUAL_STATUS_EVENT: &'static str = "visual-status";
pub const VISUAL_TEXT_EVENT: &'static str = "visual-text-update";
pub const VISUAL_CLEAR_EVENT: &'static str = "visual-text-clear";
pub const VISUAL_REGION_SELECTED_EVENT: &'static str = "visual-region-selected";
pub const VISUAL_REGION_SELECTION_CANCELLED_EVENT: &'static str = "visual-region-selection-cancelled";
pub const VISUAL_REGION_SELECTOR_REQUEST_EVENT: &'static str = "visual-region-selector-request";
pub const CAPTION_PRESENTATION_EVENT: &'static str = "caption-presentation";
pub const VISUAL_PRESENTATION_EVENT: &'static str = "visual-presentation";
pub const CONFIGURATION_EVENT: &'static str = "configuration-updated";

} // verus!
