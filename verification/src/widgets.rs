//! The widgets of the window chrome.

pub mod laws;
pub mod titlebar;
