//! Terminal user interface of a coding agent: the layout, text and state rules,
//! verified. Drawing, input and network work live outside this library.

pub mod composer;
pub mod delivery;
pub mod geometry;
pub mod i18n;
pub mod json;
pub mod laws;
pub mod line;
pub mod model;
pub mod number;
pub mod overlay;
pub mod project_files;
pub mod protocol;
pub mod render;
pub mod run;
pub mod screen;
pub mod seconds;
pub mod secondary;
pub mod selection;
pub mod skills_view;
pub mod splash;
pub mod state;
pub mod status_line;
pub mod strings;
pub mod suggestion;
pub mod terminal;
pub mod terminal_title;
pub mod theme;
pub mod theme_config;
pub mod tool_cell;
pub mod tool_taxonomy;
pub mod transcript;
pub mod width;
