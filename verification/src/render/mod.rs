//! What the screens show, as styled lines.

pub mod composer_box;
pub mod detail;
pub mod footer;
pub mod pages;
pub mod panes;
pub mod popup;
pub mod remote;
pub mod rows;
pub mod screens;
pub mod sub_agents;
pub mod text;
pub mod tools_screen;
pub mod transcript_lines;
pub mod turn_end;
