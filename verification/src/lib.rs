//! Human-readable labels for the workspaces of a tiling window-manager
//! session.
//!
//! On every relevant window-manager event the library re-derives, from a
//! fresh tree snapshot, a label for the active workspace: the workspace's
//! number, a glyph for the focused application, and a glyph encoding the
//! shape of the current window layout. The caller submits the resulting
//! rename command back to the window manager; fetching snapshots, reading
//! events and submitting commands are the caller's business.

pub mod config;
pub mod label;
pub mod locator;
pub mod numfmt;
pub mod reactor;
pub mod tree;
