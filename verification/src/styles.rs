//! How the window controls look.

pub mod decoration_styles;
