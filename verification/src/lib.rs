//! Window chrome for a frameless editor window: a title bar that hosts the
//! window controls, arranges them against the right edge and turns pointer
//! presses into drag and toggle-maximise gestures.
//!
//! All lengths are whole logical pixels. Measured lengths are `u32`; computed
//! coordinates are `i64`, wide enough that no arrangement can overflow.

mod clock;
pub mod editor;
pub mod event;
pub mod geometry;
pub mod paint;
pub mod styles;
pub mod widgets;
