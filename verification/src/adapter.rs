use vstd::prelude::*;

use crate::error::EditorError;
use crate::handle::ParentHandle;
use crate::render::DrawCmd;
use crate::render::WINDOW_HEIGHT;
use crate::render::WINDOW_WIDTH;
use crate::render::is_frame_scene;
use crate::session::EditorSession;
use crate::session::lifecycle_of;
use crate::session::open_outcome;
use crate::session::open_succeeds;
use crate::session::step_close;
use crate::session::step_open;
use crate::system::LogEvent;
use crate::system::WindowSystem;
use crate::system::same_config;

verus! {

/// PluginEditorAdapter: the editor capability a host touches, mapped one to
/// one onto an `EditorSession`. Where the session demands to be closed before
/// an `open`, the adapter is total: it reports success or failure as the
/// `bool` the host-facing capability expects, and an `open` on an already
/// open editor changes nothing and reports failure.
pub struct PluginEditorAdapter {
    session: EditorSession,
}

impl PluginEditorAdapter {
    pub closed spec fn spec_session(&self) -> EditorSession {
        self.session
    }

    pub open spec fn wf(&self) -> bool {
        self.spec_session().wf()
    }

    pub open spec fn is_open_spec(&self) -> bool {
        self.spec_session().is_open_spec()
    }

    /// A fresh adapter around a closed session.
    pub fn new() -> (a: PluginEditorAdapter)
        ensures
            a.wf(),
            !a.is_open_spec(),
    {
        PluginEditorAdapter { session: EditorSession::new() }
    }

    /// The editor's position within its parent: a fixed constant, the same in
    /// either lifecycle state.
    pub fn position(&self) -> (p: (i32, i32))
        ensures
            p.0 == 0,
            p.1 == 0,
    {
        self.session.position()
    }

    /// The editor's size: a fixed constant, the same in either lifecycle
    /// state.
    pub fn size(&self) -> (s: (i32, i32))
        ensures
            s.0 == WINDOW_WIDTH as i32,
            s.1 == WINDOW_HEIGHT as i32,
    {
        self.session.size()
    }

    /// Reflects the lifecycle state exactly.
    pub fn is_open(&self) -> (r: bool)
        ensures
            r == self.is_open_spec(),
    {
        self.session.is_open()
    }

    /// Opens the editor under the given parent reference; `true` reports
    /// success. Exactly the closed-session opens with a matching platform tag
    /// and a supported surface format succeed; everything else — a mismatched
    /// tag, a rejected surface, or an editor already open — reports `false`
    /// and leaves the observable lifecycle exactly as it was.
    pub fn open(
        &mut self,
        sys: &mut WindowSystem,
        parent: &ParentHandle,
        assigned_child_id: usize,
        title: String,
    ) -> (r: bool)
        requires
            old(self).wf(),
            old(sys).live_windows < u64::MAX,
            old(sys).live_surfaces < u64::MAX,
        ensures
            final(self).wf(),
            r == (!old(self).is_open_spec() && open_succeeds(
                *parent,
                old(sys).platform,
                old(sys).surface_format_supported,
            )),
            final(self).is_open_spec() == (old(self).is_open_spec() || r),
            lifecycle_of(final(self).spec_session(), *final(sys)) == step_open(
                lifecycle_of(old(self).spec_session(), *old(sys)),
                *parent,
                old(sys).platform,
                old(sys).surface_format_supported,
            ),
            same_config(*old(sys), *final(sys)),
            final(sys).log@ == if !old(self).is_open_spec() && open_outcome(
                *parent,
                old(sys).platform,
                old(sys).surface_format_supported,
            ) == Err::<(), EditorError>(EditorError::SurfaceCreation) {
                old(sys).log@.push(LogEvent::SurfaceCreationFailed)
            } else {
                old(sys).log@
            },
    {
        if self.session.is_open() {
            false
        } else {
            match self.session.open(sys, parent, assigned_child_id, title) {
                Ok(_) => true,
                Err(_) => false,
            }
        }
    }

    /// One redraw tick, forwarded to the session: the fixed demo scene while
    /// the editor is open, nothing while it is closed.
    pub fn on_frame(&self) -> (r: Option<Vec<DrawCmd>>)
        requires
            self.wf(),
        ensures
            r is Some <==> self.is_open_spec(),
            r matches Some(cmds) ==> is_frame_scene(cmds@, WINDOW_WIDTH, WINDOW_HEIGHT),
    {
        self.session.on_frame()
    }

    /// Forwards a drawing-backend fault to the session's policy: one error
    /// record on the sink, the frame skipped, the editor left open.
    pub fn note_render_fault(&self, sys: &mut WindowSystem)
        ensures
            final(sys).log@ == old(sys).log@.push(LogEvent::RenderFault),
            final(sys).live_windows == old(sys).live_windows,
            final(sys).live_surfaces == old(sys).live_surfaces,
            same_config(*old(sys), *final(sys)),
    {
        self.session.note_render_fault(sys);
    }

    /// Closes the editor; a no-op on an already closed one. The editor is
    /// closed afterwards in every case.
    pub fn close(&mut self, sys: &mut WindowSystem)
        requires
            old(self).wf(),
            old(self).is_open_spec() ==> old(sys).live_windows >= 1 && old(sys).live_surfaces
                >= 1,
        ensures
            final(self).wf(),
            !final(self).is_open_spec(),
            lifecycle_of(final(self).spec_session(), *final(sys)) == step_close(
                lifecycle_of(old(self).spec_session(), *old(sys)),
            ),
            final(sys).log@ == old(sys).log@,
            same_config(*old(sys), *final(sys)),
    {
        self.session.close(sys);
    }
}

} // verus!
