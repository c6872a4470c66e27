//! The exact parts of a tool that sets up a first-person 3D view from the
//! size of the monitor and the distance of the viewer: the units of length
//! and the rates between them, the catalog of common aspect ratios, the text
//! that stands for a computed number, and the layout of the tool's window.
//!
//! Nothing here computes with floating-point numbers. Where a caller holds
//! one, it hands over what can be said of it exactly: its bits, its decimal
//! rendering, or its answer to a question about an entry of the catalog.

pub mod aspect;
pub mod focused;
pub mod format;
pub mod layout;
pub mod monitor_properties;
pub mod output_tabs;
pub mod portal_like;
pub mod repack;
pub mod ui;
pub mod unit_setup;
pub mod units;
