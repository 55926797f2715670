use vstd::prelude::*;

use crate::handle::Platform;

verus! {

/// Severity of a record sent to the diagnostic sink.
#[derive(Clone, Copy, Debug, PartialEq, Eq, Structural)]
pub enum LogLevel {
    Info,
    Error,
}

/// A structured record for the host's diagnostic sink. The bridge emits one
/// record on successful initialization and one per unrecoverable drawing or
/// surface error; it never configures the sink's output itself.
#[derive(Clone, Copy, Debug, PartialEq, Eq, Structural)]
pub enum LogEvent {
    /// The plugin finished initializing.
    Initialized,
    /// The drawing backend could not bind a surface to a native window.
    SurfaceCreationFailed,
    /// A drawing operation reported a faulted context or surface.
    RenderFault,
}

impl LogEvent {
    /// The severity each event is reported with.
    pub open spec fn level_spec(self) -> LogLevel {
        match self {
            LogEvent::Initialized => LogLevel::Info,
            LogEvent::SurfaceCreationFailed => LogLevel::Error,
            LogEvent::RenderFault => LogLevel::Error,
        }
    }

    /// The severity this event is reported with.
    pub fn level(&self) -> (l: LogLevel)
        ensures
            l == self.level_spec(),
    {
        match self {
            LogEvent::Initialized => LogLevel::Info,
            LogEvent::SurfaceCreationFailed => LogLevel::Error,
            LogEvent::RenderFault => LogLevel::Error,
        }
    }
}

/// The windowing environment one build runs against: the build's platform
/// family, whether the drawing backend can bind surfaces to this build's
/// windows, live-resource counters for windows and surface bindings, and the
/// injected diagnostic sink.
///
/// The counters account for every native resource created and destroyed
/// through this system, so a caller can observe that a failed `open` leaves
/// them at their pre-call values.
pub struct WindowSystem {
    /// Platform family this build drives.
    pub platform: Platform,
    /// Whether the drawing backend accepts this build's windows (for
    /// instance, whether their visual/pixel format is supported).
    pub surface_format_supported: bool,
    /// Number of native child windows currently alive.
    pub live_windows: u64,
    /// Number of surface bindings currently alive.
    pub live_surfaces: u64,
    /// Diagnostic sink: the records emitted so far, in order.
    pub log: Vec<LogEvent>,
}

/// The parts of a window system that no bridge operation may change: the
/// build's platform and the backend's surface support.
pub open spec fn same_config(a: WindowSystem, b: WindowSystem) -> bool {
    a.platform == b.platform && a.surface_format_supported == b.surface_format_supported
}

impl WindowSystem {
    /// A fresh environment with no live resources and an empty sink.
    pub fn new(platform: Platform, surface_format_supported: bool) -> (sys: WindowSystem)
        ensures
            sys.platform == platform,
            sys.surface_format_supported == surface_format_supported,
            sys.live_windows == 0,
            sys.live_surfaces == 0,
            sys.log@ == Seq::<LogEvent>::empty(),
    {
        WindowSystem {
            platform,
            surface_format_supported,
            live_windows: 0,
            live_surfaces: 0,
            log: Vec::new(),
        }
    }

    /// Appends one record to the diagnostic sink; nothing else changes.
    pub fn record(&mut self, event: LogEvent)
        ensures
            final (self).log@ == old(self).log@.push(event),
            final (self).platform == old(self).platform,
            final (self).surface_format_supported == old(self).surface_format_supported,
            final (self).live_windows == old(self).live_windows,
            final (self).live_surfaces == old(self).live_surfaces,
    {
        self.log.push(event);
    }
}

} // verus!
