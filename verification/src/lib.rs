//! An embedded editor window bridge.
//!
//! A host application hands this library an opaque parent window reference;
//! the library resolves it into a typed native handle, models a child native
//! window parented into it, binds a drawing surface one-to-one with that
//! window, and drives a `Closed -> Open -> Closed` lifecycle the host may
//! cycle at will. Each frame tick yields the fixed demo scene as a sequence
//! of drawing commands for a 2D immediate-mode backend to execute.

pub mod adapter;
pub mod error;
pub mod handle;
pub mod plugin;
pub mod render;
pub mod session;
pub mod surface;
pub mod system;
pub mod window;
