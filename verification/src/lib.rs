//! Verified core of a system-wide grammar correction assistant: the data it
//! exchanges with the model, the settings it keeps, and the decisions it takes
//! between reading the selection, asking the model and showing the result.

pub mod floating_panel;
pub mod text;
pub mod corrections;
pub mod json;
pub mod settings;
pub mod app_filter;
pub mod gemini;
pub mod clipboard;
pub mod shortcuts;
pub mod tray;
