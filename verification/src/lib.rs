//! Core logic of a dock/taskbar replacement for a native windowing shell.
//!
//! The crate decides which top-level application windows are "open" for
//! dock-icon purposes, keeps that registry synchronized as windows appear,
//! change title, or close, detects when the dock is geometrically overlapped
//! by the foreground window, and plans the native taskbar's auto-hide
//! protocol.  All live operating-system queries (window text, styles, rects,
//! enumeration) are performed by the embedder, which hands this crate plain
//! values; every decision taken on those values is verified.

pub mod overlap;
pub mod registry;
pub mod strutil;
pub mod taskbar;
pub mod window;
