pub mod action_laws;
pub mod app;
pub mod app_keys;
pub mod app_laws;
pub mod app_search;
pub mod app_spec;
pub mod app_state;
pub mod app_write;
pub mod card_laws;
pub mod clipboard;
pub mod config;
pub mod cursor_laws;
pub mod document;
pub mod file_laws;
pub mod finding_laws;
pub mod flow_laws;
pub mod frame_laws;
pub mod git_checked;
pub mod git_commit;
pub mod git_flow;
pub mod git_laws;
pub mod git_push;
pub mod git_run;
pub mod git_safety;
pub mod git_step;
pub mod git_sync;
pub mod git_text;
pub mod input;
pub mod input_laws;
pub mod key_laws;
pub mod model;
pub mod moving_laws;
pub mod order;
pub mod reading_laws;
pub mod script;
pub mod sync_laws;
pub mod task_laws;
pub mod text;
pub mod text_laws;
pub mod view_laws;
pub mod writer;
