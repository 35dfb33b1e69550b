use vstd::prelude::*;

pub mod build_options;
pub mod text;
pub mod flutter;
pub mod num;
pub mod tui;
pub mod naming;
pub mod native_build;
pub mod native_ir;
pub mod cli;
pub mod error;
pub mod events;
pub mod capabilities;
pub mod benchmark;
pub mod native_mobile;
pub mod dispatch;
pub mod share_extension;
pub mod crepus_toml;
pub mod wasm_bundle;
pub mod scaffold;
pub mod mobile_actions;
pub mod ios;
pub mod apple_project;
pub mod moonshine;
pub mod components;
pub mod target_build;
pub mod tauri;
pub mod preferences;
pub mod doctor;
pub mod builder;
pub mod hud;
pub mod dev;
pub mod gpui_scaffold;
pub mod docs;
pub mod aurora;
pub mod json;
pub mod host_edits;

verus! {

} // verus!
