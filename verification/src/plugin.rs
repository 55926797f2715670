use vstd::prelude::*;
use vstd::string::StringExecFns;

use crate::adapter::PluginEditorAdapter;
use crate::system::LogEvent;
use crate::system::WindowSystem;
use crate::system::same_config;

verus! {

/// The metadata a host reads off the plugin.
pub struct PluginInfo {
    pub name: String,
    pub unique_id: i32,
}

/// One plugin instance: it owns the editor capability until the host asks for
/// it, and hands it out exactly once over its life.
pub struct PluginInstance {
    editor: Option<PluginEditorAdapter>,
}

impl PluginInstance {
    pub closed spec fn spec_editor(&self) -> Option<PluginEditorAdapter> {
        self.editor
    }

    /// Whether the editor capability is still on offer.
    pub open spec fn editor_available(&self) -> bool {
        self.spec_editor() is Some
    }

    pub open spec fn wf(&self) -> bool {
        self.spec_editor() matches Some(e) ==> e.wf() && !e.is_open_spec()
    }

    /// A fresh instance, holding a closed editor ready to hand out.
    pub fn new() -> (p: PluginInstance)
        ensures
            p.wf(),
            p.editor_available(),
    {
        PluginInstance { editor: Some(PluginEditorAdapter::new()) }
    }

    /// The fixed metadata of the demo plugin.
    pub fn info(&self) -> (info: PluginInfo)
        ensures
            info.name@ == "BaseviewTest"@,
            info.unique_id == 53435,
    {
        PluginInfo { name: String::from_str("BaseviewTest"), unique_id: 53435 }
    }

    /// Initialization as the core sees it: one informational record goes to
    /// the diagnostic sink. Setting the sink itself up (files, levels) is the
    /// embedding's business, not this library's.
    pub fn init(&self, sys: &mut WindowSystem)
        ensures
            final(sys).log@ == old(sys).log@.push(LogEvent::Initialized),
            final(sys).live_windows == old(sys).live_windows,
            final(sys).live_surfaces == old(sys).live_surfaces,
            same_config(*old(sys), *final(sys)),
    {
        sys.record(LogEvent::Initialized);
    }

    /// Hands the editor capability to the host. The transfer happens exactly
    /// once per instance: the first call yields the adapter, every later call
    /// yields nothing.
    pub fn take_editor(&mut self) -> (r: Option<PluginEditorAdapter>)
        ensures
            r == old(self).spec_editor(),
            !final(self).editor_available(),
            old(self).wf() ==> (r matches Some(e) ==> e.wf() && !e.is_open_spec()),
    {
        self.editor.take()
    }
}

} // verus!
