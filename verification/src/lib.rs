//! Verified core of a small desktop memory overlay.
//!
//! The overlay is a borderless always-on-top window that shows the machine's
//! physical-memory usage and can be dragged with the mouse.  Everything the
//! operating system or the GUI toolkit does (window creation, tray icon,
//! timers, cursor queries, the memory query itself) is the window host's
//! business and stays outside this crate; the host hands plain values in and
//! carries plain commands out.  What is verified here is the logic between
//! those two edges:
//!
//! * [`snapshot`] — the memory sample data model and its invariant;
//! * [`textfmt`] — fixed-point decimal rendering of a sample into the label
//!   text, with an exact character-level specification;
//! * [`drag`] — the two-state mouse-drag state machine;
//! * [`dispatch`] — the event dispatcher that routes host events to the drag
//!   controller and the refresh logic and emits host commands.

pub mod dispatch;
pub mod drag;
pub mod snapshot;
pub mod textfmt;

pub use dispatch::{HostCommand, HostEvent, OverlayApp};
pub use drag::DragState;
pub use snapshot::{MemorySnapshot, SysData};
