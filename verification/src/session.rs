use vstd::prelude::*;

use crate::error::EditorError;
use crate::handle::ParentHandle;
use crate::handle::Platform;
use crate::handle::resolve_parent;
use crate::handle::resolved_handle;
use crate::render::DrawCmd;
use crate::render::WINDOW_HEIGHT;
use crate::render::WINDOW_WIDTH;
use crate::render::frame_scene;
use crate::render::is_frame_scene;
use crate::surface::SurfaceBinding;
use crate::system::LogEvent;
use crate::system::WindowSystem;
use crate::system::same_config;
use crate::window::NativeWindow;
use crate::window::child_handle;

verus! {

/// The lifecycle a session and its environment move through, abstracted to
/// what a host can observe: whether the editor is open, and how many native
/// windows and surface bindings are alive.
pub struct Lifecycle {
    pub open: bool,
    pub live_windows: u64,
    pub live_surfaces: u64,
}

/// The observable lifecycle state of a session within its environment.
pub open spec fn lifecycle_of(s: EditorSession, sys: WindowSystem) -> Lifecycle {
    Lifecycle {
        open: s.is_open_spec(),
        live_windows: sys.live_windows,
        live_surfaces: sys.live_surfaces,
    }
}

/// Whether `open` succeeds: the parent's platform tag must match the build's
/// platform, and the drawing backend must support this build's windows.
/// Success depends on nothing else — in particular not on how often the
/// session was opened and closed before.
pub open spec fn open_succeeds(
    parent: ParentHandle,
    platform: Platform,
    surface_supported: bool,
) -> bool {
    parent.platform_spec() == platform && surface_supported
}

/// What `open` returns: handle mismatch is detected before anything is
/// created; an unsupported surface format is detected after the child window
/// exists, which `open` then tears down again.
pub open spec fn open_outcome(
    parent: ParentHandle,
    platform: Platform,
    surface_supported: bool,
) -> Result<(), EditorError> {
    if parent.platform_spec() != platform {
        Err(EditorError::HandleMismatch)
    } else if !surface_supported {
        Err(EditorError::SurfaceCreation)
    } else {
        Ok(())
    }
}

/// How `open` moves the observable lifecycle: from a closed state, a
/// successful open is open with one more window and one more surface alive;
/// anything else leaves the state exactly as it was.
pub open spec fn step_open(
    s: Lifecycle,
    parent: ParentHandle,
    platform: Platform,
    surface_supported: bool,
) -> Lifecycle {
    if !s.open && open_succeeds(parent, platform, surface_supported) {
        Lifecycle {
            open: true,
            live_windows: (s.live_windows + 1) as u64,
            live_surfaces: (s.live_surfaces + 1) as u64,
        }
    } else {
        s
    }
}

/// How `close` moves the observable lifecycle: an open session releases its
/// surface and its window; a closed one is left untouched.
pub open spec fn step_close(s: Lifecycle) -> Lifecycle {
    if s.open {
        Lifecycle {
            open: false,
            live_windows: (s.live_windows - 1) as u64,
            live_surfaces: (s.live_surfaces - 1) as u64,
        }
    } else {
        s
    }
}

/// EditorSession: owns at most one native window and the surface binding tied
/// to it, and drives the `Closed -> Open -> Closed` lifecycle. Closed holds
/// neither resource; Open holds exactly both, sized to the fixed demo editor.
pub struct EditorSession {
    window: Option<NativeWindow>,
    surface: Option<SurfaceBinding>,
}

impl EditorSession {
    pub closed spec fn spec_window(&self) -> Option<NativeWindow> {
        self.window
    }

    pub closed spec fn spec_surface(&self) -> Option<SurfaceBinding> {
        self.surface
    }

    /// Open exactly when the session holds its window (and so its surface).
    pub open spec fn is_open_spec(&self) -> bool {
        self.spec_window() is Some
    }

    /// The session invariant: window and surface are present together or not
    /// at all; when present, the surface is bound to this very window and
    /// both carry the fixed demo size.
    pub open spec fn wf(&self) -> bool {
        &&& self.spec_window() is Some <==> self.spec_surface() is Some
        &&& self.spec_window() matches Some(w) ==> {
            &&& w.spec_width() == WINDOW_WIDTH
            &&& w.spec_height() == WINDOW_HEIGHT
            &&& self.spec_surface() matches Some(s) ==> {
                &&& s.spec_window_handle() == w.spec_handle()
                &&& s.spec_width() == WINDOW_WIDTH
                &&& s.spec_height() == WINDOW_HEIGHT
            }
        }
    }

    /// A fresh session: closed, owning nothing.
    pub fn new() -> (s: EditorSession)
        ensures
            s.wf(),
            !s.is_open_spec(),
    {
        EditorSession { window: None, surface: None }
    }

    /// Reflects the lifecycle state exactly.
    pub fn is_open(&self) -> (r: bool)
        ensures
            r == self.is_open_spec(),
    {
        self.window.is_some()
    }

    /// The demo editor's position within its parent: a fixed constant,
    /// valid in either lifecycle state.
    pub fn position(&self) -> (p: (i32, i32))
        ensures
            p.0 == 0,
            p.1 == 0,
    {
        (0, 0)
    }

    /// The demo editor's size: a fixed constant, valid in either lifecycle
    /// state.
    pub fn size(&self) -> (s: (i32, i32))
        ensures
            s.0 == WINDOW_WIDTH as i32,
            s.1 == WINDOW_HEIGHT as i32,
    {
        (WINDOW_WIDTH as i32, WINDOW_HEIGHT as i32)
    }

    /// Opens the editor from a closed session: resolves the parent reference,
    /// creates the child native window (`assigned_child_id` is the identifier
    /// the windowing layer hands out for it, `title` its caption), binds the
    /// surface to it, and moves to Open.
    ///
    /// Fails with `HandleMismatch` when the parent's platform tag is not the
    /// build's platform — before any resource exists — and with
    /// `SurfaceCreation` when the backend rejects the window, in which case
    /// the partially created window is destroyed before returning. On any
    /// failure the session stays closed and both live-resource counters hold
    /// their pre-call values.
    pub fn open(
        &mut self,
        sys: &mut WindowSystem,
        parent: &ParentHandle,
        assigned_child_id: usize,
        title: String,
    ) -> (r: Result<(), EditorError>)
        requires
            old(self).wf(),
            !old(self).is_open_spec(),
            old(sys).live_windows < u64::MAX,
            old(sys).live_surfaces < u64::MAX,
        ensures
            final(self).wf(),
            r == open_outcome(*parent, old(sys).platform, old(sys).surface_format_supported),
            final(self).is_open_spec() <==> r is Ok,
            lifecycle_of(*final(self), *final(sys)) == step_open(
                lifecycle_of(*old(self), *old(sys)),
                *parent,
                old(sys).platform,
                old(sys).surface_format_supported,
            ),
            same_config(*old(sys), *final(sys)),
            r is Ok ==> {
                &&& final(self).spec_window() matches Some(w) && w.spec_handle() == child_handle(
                    resolved_handle(*parent),
                    assigned_child_id,
                ) && w.spec_title() == title@
                &&& final(sys).log@ == old(sys).log@
            },
            r is Err ==> *final(self) == *old(self),
            r == Err::<(), EditorError>(EditorError::HandleMismatch) ==> final(sys).log@ == old(
                sys,
            ).log@,
            r == Err::<(), EditorError>(EditorError::SurfaceCreation) ==> final(sys).log@ == old(
                sys,
            ).log@.push(LogEvent::SurfaceCreationFailed),
    {
        let resolved = match resolve_parent(parent, sys.platform) {
            Ok(h) => h,
            Err(e) => {
                return Err(e);
            },
        };
        let window = NativeWindow::create(
            sys,
            &resolved,
            WINDOW_WIDTH,
            WINDOW_HEIGHT,
            title,
            assigned_child_id,
        );
        let surface = match SurfaceBinding::create(sys, &window) {
            Ok(s) => s,
            Err(e) => {
                window.destroy(sys);
                return Err(e);
            },
        };
        self.window = Some(window);
        self.surface = Some(surface);
        Ok(())
    }

    /// Closes the editor: destroys the surface binding first, then the native
    /// window, and moves to Closed. On an already closed session this is a
    /// no-op — never an error — so closing twice observes the same state as
    /// closing once.
    pub fn close(&mut self, sys: &mut WindowSystem)
        requires
            old(self).wf(),
            old(self).is_open_spec() ==> old(sys).live_windows >= 1 && old(sys).live_surfaces
                >= 1,
        ensures
            final(self).wf(),
            !final(self).is_open_spec(),
            lifecycle_of(*final(self), *final(sys)) == step_close(
                lifecycle_of(*old(self), *old(sys)),
            ),
            final(sys).log@ == old(sys).log@,
            same_config(*old(sys), *final(sys)),
    {
        let surface = self.surface.take();
        let window = self.window.take();
        match (surface, window) {
            (Some(s), Some(w)) => {
                s.destroy(sys, &w);
                w.destroy(sys);
            },
            _ => {},
        }
    }

    /// One redraw tick: an open session yields the fixed demo scene for its
    /// surface; a closed session has no surface to draw into and yields
    /// nothing.
    pub fn on_frame(&self) -> (r: Option<Vec<DrawCmd>>)
        requires
            self.wf(),
        ensures
            r is Some <==> self.is_open_spec(),
            r matches Some(cmds) ==> is_frame_scene(cmds@, WINDOW_WIDTH, WINDOW_HEIGHT),
    {
        match &self.surface {
            Some(surface) => Some(frame_scene(surface.width(), surface.height())),
            None => None,
        }
    }

    /// A drawing operation reported a faulted context or surface during a
    /// frame. The fault is recorded on the diagnostic sink and the frame is
    /// skipped; the shared receiver makes it impossible for this call to tear
    /// the session down, so the window stays open and keeps responding.
    pub fn note_render_fault(&self, sys: &mut WindowSystem)
        ensures
            final(sys).log@ == old(sys).log@.push(LogEvent::RenderFault),
            final(sys).live_windows == old(sys).live_windows,
            final(sys).live_surfaces == old(sys).live_surfaces,
            same_config(*old(sys), *final(sys)),
    {
        sys.record(LogEvent::RenderFault);
    }
}

/// Closing is idempotent: closing twice in a row observes exactly the state
/// of closing once.
pub proof fn lemma_close_idempotent(s: Lifecycle)
    ensures
        step_close(step_close(s)) == step_close(s),
{
}

/// Opening and then closing returns the lifecycle exactly to where it began:
/// no leaked window or surface survives the round trip, whether the open
/// succeeded or failed.
pub proof fn lemma_open_close_roundtrip(
    s: Lifecycle,
    parent: ParentHandle,
    platform: Platform,
    surface_supported: bool,
)
    requires
        !s.open,
        s.live_windows < u64::MAX,
        s.live_surfaces < u64::MAX,
    ensures
        step_close(step_open(s, parent, platform, surface_supported)) == s,
{
}

/// Reopening works: after an open and a close, the session is closed again
/// and a second open from that state behaves exactly as the first did — no
/// state left behind by the first cycle can block or alter it.
pub proof fn lemma_reopen_after_close(
    s: Lifecycle,
    parent: ParentHandle,
    platform: Platform,
    surface_supported: bool,
)
    requires
        !s.open,
        s.live_windows < u64::MAX,
        s.live_surfaces < u64::MAX,
    ensures
        !step_close(step_open(s, parent, platform, surface_supported)).open,
        step_open(
            step_close(step_open(s, parent, platform, surface_supported)),
            parent,
            platform,
            surface_supported,
        ) == step_open(s, parent, platform, surface_supported),
{
}

/// What a host observes through `is_open`: closed before any open, open
/// exactly after a successful open, and closed again after a close.
pub proof fn lemma_is_open_observation(
    s: Lifecycle,
    parent: ParentHandle,
    platform: Platform,
    surface_supported: bool,
)
    requires
        !s.open,
    ensures
        step_open(s, parent, platform, surface_supported).open <==> open_succeeds(
            parent,
            platform,
            surface_supported,
        ),
        !step_close(step_open(s, parent, platform, surface_supported)).open,
{
}

} // verus!
