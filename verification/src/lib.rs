//! A minimal 2D collision-resolution kernel for axis-aligned boxes.
//!
//! The [`collision`] module decides, for a moving box, whether it has left a
//! containing boundary or run into another box, and in which single cardinal
//! direction it must bounce to return to a valid configuration. The [`gui`]
//! module holds the frame-timing bookkeeping that a render loop drives.

pub mod collision;
pub mod gui;
