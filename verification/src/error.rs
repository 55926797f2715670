use vstd::prelude::*;

verus! {

/// Errors the editor bridge can report to its host.
///
/// Creation-time failures (`HandleMismatch`, `SurfaceCreation`) are returned
/// from `open`, which leaves the session cleanly closed. A `RenderFault` is a
/// runtime drawing failure: it is recorded on the diagnostic sink and the
/// frame is skipped, but the session stays open. A `close` on an already
/// closed session is a no-op, never an error.
#[derive(Clone, Copy, Debug, PartialEq, Eq, Structural)]
pub enum EditorError {
    /// The parent handle's platform tag does not match the build's platform.
    HandleMismatch,
    /// The drawing backend rejected the native handle or its pixel format.
    SurfaceCreation,
    /// A drawing operation reported a faulted context or surface.
    RenderFault,
}

} // verus!
