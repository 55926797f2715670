use vstd::prelude::*;

use crate::error::EditorError;

verus! {

/// The native windowing families a build of this library can target.
#[derive(Clone, Copy, Debug, PartialEq, Eq, Structural)]
pub enum Platform {
    /// Unix/X11-style windowing.
    Unix,
    /// Win32 windowing.
    Windows,
    /// macOS view/window pairs.
    MacOs,
}

/// The parent window reference a host supplies when it opens the editor:
/// an opaque pointer together with the platform family it belongs to.
///
/// Pointer and identifier values are carried as plain machine words; the
/// library never dereferences them. On macOS the owning top-level window of
/// the supplied view is part of the reference, since embedding anchors to the
/// window rather than the view; the platform layer reads that one property
/// from the view before handing the reference over.
#[derive(Clone, Copy, Debug, PartialEq, Eq, Structural)]
pub enum ParentHandle {
    /// An X11 window together with its display connection.
    XlibParent { window: usize, display: usize },
    /// A Win32 window handle.
    Win32Parent { hwnd: usize },
    /// A macOS view and the top-level window that owns it.
    MacOsParent { ns_view: usize, ns_window: usize },
}

/// The resolved, typed form of a parent reference: one variant per platform
/// family, immutable once produced.
#[derive(Clone, Copy, Debug, PartialEq, Eq, Structural)]
pub enum NativeHandle {
    /// An X11 window together with its display connection.
    XlibWindow { window: usize, display: usize },
    /// A Win32 window handle.
    Win32Hwnd { hwnd: usize },
    /// A macOS view and the top-level window that owns it.
    MacOsView { ns_view: usize, ns_window: usize },
}

impl ParentHandle {
    /// The platform tag implicit in a host-supplied parent reference.
    pub open spec fn platform_spec(self) -> Platform {
        match self {
            ParentHandle::XlibParent { .. } => Platform::Unix,
            ParentHandle::Win32Parent { .. } => Platform::Windows,
            ParentHandle::MacOsParent { .. } => Platform::MacOs,
        }
    }

    /// The platform family this parent reference belongs to.
    pub fn platform(&self) -> (p: Platform)
        ensures
            p == self.platform_spec(),
    {
        match self {
            ParentHandle::XlibParent { .. } => Platform::Unix,
            ParentHandle::Win32Parent { .. } => Platform::Windows,
            ParentHandle::MacOsParent { .. } => Platform::MacOs,
        }
    }
}

impl NativeHandle {
    /// The platform family a resolved handle belongs to.
    pub open spec fn platform_spec(self) -> Platform {
        match self {
            NativeHandle::XlibWindow { .. } => Platform::Unix,
            NativeHandle::Win32Hwnd { .. } => Platform::Windows,
            NativeHandle::MacOsView { .. } => Platform::MacOs,
        }
    }

    /// The platform family this handle belongs to.
    pub fn platform(&self) -> (p: Platform)
        ensures
            p == self.platform_spec(),
    {
        match self {
            NativeHandle::XlibWindow { .. } => Platform::Unix,
            NativeHandle::Win32Hwnd { .. } => Platform::Windows,
            NativeHandle::MacOsView { .. } => Platform::MacOs,
        }
    }
}

/// The typed handle that resolution produces for a given parent reference:
/// the same identifiers, under the variant of the parent's own family.
pub open spec fn resolved_handle(parent: ParentHandle) -> NativeHandle {
    match parent {
        ParentHandle::XlibParent { window, display } => NativeHandle::XlibWindow { window, display },
        ParentHandle::Win32Parent { hwnd } => NativeHandle::Win32Hwnd { hwnd },
        ParentHandle::MacOsParent { ns_view, ns_window } => NativeHandle::MacOsView {
            ns_view,
            ns_window,
        },
    }
}

/// Normalizes a host-supplied parent reference into a typed native handle.
///
/// The mapping is total for parent references of the build's own platform and
/// platform-exclusive: a build for platform `build` only ever produces
/// `build`'s variant. A reference tagged for any other platform is rejected
/// with `HandleMismatch`, so a mismatched host pointer can never reach the
/// windowing layer.
pub fn resolve_parent(parent: &ParentHandle, build: Platform) -> (r: Result<
    NativeHandle,
    EditorError,
>)
    ensures
        parent.platform_spec() == build ==> r == Ok::<NativeHandle, EditorError>(
            resolved_handle(*parent),
        ),
        parent.platform_spec() != build ==> r == Err::<NativeHandle, EditorError>(
            EditorError::HandleMismatch,
        ),
{
    if parent.platform() == build {
        match parent {
            ParentHandle::XlibParent { window, display } => Ok(
                NativeHandle::XlibWindow { window: *window, display: *display },
            ),
            ParentHandle::Win32Parent { hwnd } => Ok(NativeHandle::Win32Hwnd { hwnd: *hwnd }),
            ParentHandle::MacOsParent { ns_view, ns_window } => Ok(
                NativeHandle::MacOsView { ns_view: *ns_view, ns_window: *ns_window },
            ),
        }
    } else {
        Err(EditorError::HandleMismatch)
    }
}

/// Resolution is platform-exclusive: the variant of the resolved handle is
/// always the variant of the parent reference's own tag, so a successful
/// resolution against the build platform can produce no other platform's
/// variant.
pub proof fn lemma_resolver_platform_exclusive(parent: ParentHandle, build: Platform)
    ensures
        resolved_handle(parent).platform_spec() == parent.platform_spec(),
        parent.platform_spec() == build ==> resolved_handle(parent).platform_spec() == build,
{
}

} // verus!
