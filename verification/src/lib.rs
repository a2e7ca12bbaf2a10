//! The logic of a code review panel: which files a diff touches and in what order they are listed,
//! which reviews were opened lately, and what the panel shows and asks for after each event.
pub mod effects;
pub mod elements;
pub mod file_list;
pub mod github_remote;
pub mod list_laws;
pub mod panel_laws;
pub mod panel_model;
pub mod panel_step_laws;
pub mod recent_reviews;
pub mod repo_path;
pub mod review_panel;
pub mod text;
pub mod tree_diff;
pub mod view_laws;

pub use effects::FileListEvent;
pub use file_list::FileList;
pub use review_panel::ReviewPanel;
