use vstd::prelude::*;

use crate::handle::NativeHandle;
use crate::system::WindowSystem;
use crate::system::same_config;

verus! {

/// The handle the platform assigns to a child window created under `parent`:
/// the assigned identifier, anchored in the parent's own family (an X11 child
/// shares its parent's display connection; a macOS child view is owned by the
/// parent's top-level window).
pub open spec fn child_handle(parent: NativeHandle, assigned_id: usize) -> NativeHandle {
    match parent {
        NativeHandle::XlibWindow { display, .. } => NativeHandle::XlibWindow {
            window: assigned_id,
            display,
        },
        NativeHandle::Win32Hwnd { .. } => NativeHandle::Win32Hwnd { hwnd: assigned_id },
        NativeHandle::MacOsView { ns_window, .. } => NativeHandle::MacOsView {
            ns_view: assigned_id,
            ns_window,
        },
    }
}

/// One owned native child window, parented into a resolved handle, with a
/// fixed non-resizable size. It is created through `create`, which accounts
/// for it on the window system's live counter, and consumed by `destroy`,
/// which releases it: ownership makes a second destruction unwritable.
pub struct NativeWindow {
    handle: NativeHandle,
    width: u32,
    height: u32,
    title: String,
}

impl NativeWindow {
    /// The native handle of the window itself.
    pub closed spec fn spec_handle(&self) -> NativeHandle {
        self.handle
    }

    pub closed spec fn spec_width(&self) -> u32 {
        self.width
    }

    pub closed spec fn spec_height(&self) -> u32 {
        self.height
    }

    pub closed spec fn spec_title(&self) -> Seq<char> {
        self.title@
    }

    /// Opens a native child window parented to `parent`, sized
    /// `width` x `height`, carrying `title`. `assigned_id` is the identifier
    /// the platform's windowing layer hands out for the new window. The
    /// system's live-window counter grows by exactly one and nothing else in
    /// the environment changes.
    pub fn create(
        sys: &mut WindowSystem,
        parent: &NativeHandle,
        width: u32,
        height: u32,
        title: String,
        assigned_id: usize,
    ) -> (w: NativeWindow)
        requires
            old(sys).live_windows < u64::MAX,
        ensures
            w.spec_handle() == child_handle(*parent, assigned_id),
            w.spec_width() == width,
            w.spec_height() == height,
            w.spec_title() == title@,
            final(sys).live_windows == old(sys).live_windows + 1,
            final(sys).live_surfaces == old(sys).live_surfaces,
            final(sys).log@ == old(sys).log@,
            same_config(*old(sys), *final(sys)),
    {
        sys.live_windows = sys.live_windows + 1;
        let handle = match parent {
            NativeHandle::XlibWindow { display, .. } => NativeHandle::XlibWindow {
                window: assigned_id,
                display: *display,
            },
            NativeHandle::Win32Hwnd { .. } => NativeHandle::Win32Hwnd { hwnd: assigned_id },
            NativeHandle::MacOsView { ns_window, .. } => NativeHandle::MacOsView {
                ns_view: assigned_id,
                ns_window: *ns_window,
            },
        };
        NativeWindow { handle, width, height, title }
    }

    /// The native handle of the window itself, for binding a surface to it;
    /// meaningful only while the window is alive, which ownership guarantees.
    pub fn raw_handle(&self) -> (h: NativeHandle)
        ensures
            h == self.spec_handle(),
    {
        self.handle
    }

    pub fn width(&self) -> (w: u32)
        ensures
            w == self.spec_width(),
    {
        self.width
    }

    pub fn height(&self) -> (h: u32)
        ensures
            h == self.spec_height(),
    {
        self.height
    }

    /// Releases the native window. Consuming `self` makes destruction happen
    /// at most once per window; the live counter shrinks by exactly one.
    pub fn destroy(self, sys: &mut WindowSystem)
        requires
            old(sys).live_windows >= 1,
        ensures
            final(sys).live_windows == old(sys).live_windows - 1,
            final(sys).live_surfaces == old(sys).live_surfaces,
            final(sys).log@ == old(sys).log@,
            same_config(*old(sys), *final(sys)),
    {
        sys.live_windows = sys.live_windows - 1;
    }
}

} // verus!
