//! Update checking, update application planning, toast bookkeeping and
//! view-configuration logic of the GitComet desktop client.
pub mod text;
pub mod semver_tag;
pub mod update_check;
pub mod toast;
pub mod update_service;
pub mod auto_update;
pub mod apply_update;
pub mod wayland;
pub mod update_download;
pub mod status;
pub mod view_config;
pub mod exit_code;
pub mod launch;
pub mod git_runtime;
pub mod settings;
pub mod diff_view;
pub mod conflict;
pub mod toast_queue;
pub mod settings_model;
pub mod settings_store;
pub mod bootstrap_paths;
pub mod conflict_state;
pub mod updater_args;
