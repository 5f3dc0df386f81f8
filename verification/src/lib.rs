//! Host-side core of a callback-driven UI engine embedder.
//!
//! The engine renders into GPU backing stores supplied by the host and talks
//! to the host through registered callbacks.  This crate holds the stateful
//! core that those callbacks drive: the pointer virtualizer that turns
//! physical device events into phase-tagged pointer events, the text-editing
//! state machine that applies key-driven edits and synchronizes with a remote
//! input client, the compositor that owns GPU backing stores and assembles a
//! frame's layers, and the small decision rules of the engine bridge.
//!
//! Platform plumbing (window creation, the event pump, the engine's C entry
//! points) lives outside this crate and hands plain values in and out.

pub mod bridge;
pub mod clipboard;
pub mod compositor;
pub mod gpu;
pub mod keyboard;
pub mod pointer;
pub mod text_edit;
