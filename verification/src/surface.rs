use vstd::prelude::*;

use crate::error::EditorError;
use crate::handle::NativeHandle;
use crate::system::LogEvent;
use crate::system::WindowSystem;
use crate::system::same_config;
use crate::window::NativeWindow;

verus! {

/// One drawing surface together with its drawing context, bound one-to-one
/// with a native window's raw handle and pixel dimensions.
///
/// The binding succeeds only where the drawing backend accepts the window
/// (`WindowSystem::surface_format_supported`). Its teardown order is strict:
/// `destroy` takes the owning window by reference, so the surface can only be
/// released while that window is still alive — the context and surface go
/// before the window, by construction.
pub struct SurfaceBinding {
    window_handle: NativeHandle,
    width: u32,
    height: u32,
}

impl SurfaceBinding {
    /// The raw handle of the native window this surface is bound to.
    pub closed spec fn spec_window_handle(&self) -> NativeHandle {
        self.window_handle
    }

    pub closed spec fn spec_width(&self) -> u32 {
        self.width
    }

    pub closed spec fn spec_height(&self) -> u32 {
        self.height
    }

    pub fn width(&self) -> (w: u32)
        ensures
            w == self.spec_width(),
    {
        self.width
    }

    pub fn height(&self) -> (h: u32)
        ensures
            h == self.spec_height(),
    {
        self.height
    }

    /// Binds a surface and context to `window`'s raw handle and dimensions.
    ///
    /// Succeeds exactly when the backend supports this build's windows; on
    /// success the live-surface counter grows by one. On failure nothing is
    /// allocated, `SurfaceCreation` is returned and one record is emitted to
    /// the diagnostic sink.
    pub fn create(sys: &mut WindowSystem, window: &NativeWindow) -> (r: Result<
        SurfaceBinding,
        EditorError,
    >)
        requires
            old(sys).live_surfaces < u64::MAX,
        ensures
            r is Ok <==> old(sys).surface_format_supported,
            r matches Ok(s) ==> {
                &&& s.spec_window_handle() == window.spec_handle()
                &&& s.spec_width() == window.spec_width()
                &&& s.spec_height() == window.spec_height()
                &&& final(sys).live_surfaces == old(sys).live_surfaces + 1
                &&& final(sys).log@ == old(sys).log@
            },
            r is Err ==> {
                &&& r == Err::<SurfaceBinding, EditorError>(EditorError::SurfaceCreation)
                &&& final(sys).live_surfaces == old(sys).live_surfaces
                &&& final(sys).log@ == old(sys).log@.push(LogEvent::SurfaceCreationFailed)
            },
            final(sys).live_windows == old(sys).live_windows,
            same_config(*old(sys), *final(sys)),
    {
        if sys.surface_format_supported {
            sys.live_surfaces = sys.live_surfaces + 1;
            Ok(
                SurfaceBinding {
                    window_handle: window.raw_handle(),
                    width: window.width(),
                    height: window.height(),
                },
            )
        } else {
            sys.record(LogEvent::SurfaceCreationFailed);
            Err(EditorError::SurfaceCreation)
        }
    }

    /// Invalidates the context and releases the surface. The owning window is
    /// taken by reference: a surface can only be destroyed before its window,
    /// never after, which is the order the platform requires.
    pub fn destroy(self, sys: &mut WindowSystem, window: &NativeWindow)
        requires
            old(sys).live_surfaces >= 1,
            self.spec_window_handle() == window.spec_handle(),
        ensures
            final(sys).live_surfaces == old(sys).live_surfaces - 1,
            final(sys).live_windows == old(sys).live_windows,
            final(sys).log@ == old(sys).log@,
            same_config(*old(sys), *final(sys)),
    {
        sys.live_surfaces = sys.live_surfaces - 1;
    }
}

} // verus!
