//! The models behind the desktop window. No widgets live here.
use vstd::prelude::*;

pub mod aggregate;
pub mod connection;
pub mod existing;
pub mod image_paste;
pub mod input_bar;
pub mod last_seen;
pub mod overlay;
pub mod panel_model;
pub mod panel_rows;
pub mod preferences_fields;
pub mod preferences_labels;
pub mod preferences_manifest;
pub mod preferences_window;
pub mod quick_pick_model;
pub mod quickconnect_panel;
pub mod scene_stack;
pub mod status_bar_model;
pub mod target;
pub mod target_config_window;
pub mod terminal;
pub mod update_banner;
pub mod window;
pub mod window_actions;
pub mod window_activity;
pub mod window_appearance;
pub mod window_bootstrap;
pub mod window_chrome;
pub mod window_event_pump;
pub mod window_layout;
pub mod window_overlay;
pub mod window_render;
pub mod workspace_sidebar_model;

verus! {

} // verus!
