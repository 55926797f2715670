use editor_bridge::adapter::PluginEditorAdapter;
use editor_bridge::error::EditorError;
use editor_bridge::handle::{resolve_parent, NativeHandle, ParentHandle, Platform};
use editor_bridge::session::EditorSession;
use editor_bridge::system::{LogEvent, LogLevel, WindowSystem};

fn unix_parent() -> ParentHandle {
    ParentHandle::XlibParent { window: 0x1234, display: 0x9abc }
}

#[test]
fn resolver_produces_matching_variant_only() {
    let r = resolve_parent(&unix_parent(), Platform::Unix);
    assert_eq!(
        r,
        Ok(NativeHandle::XlibWindow { window: 0x1234, display: 0x9abc })
    );

    let win = ParentHandle::Win32Parent { hwnd: 77 };
    assert_eq!(
        resolve_parent(&win, Platform::Windows),
        Ok(NativeHandle::Win32Hwnd { hwnd: 77 })
    );

    let mac = ParentHandle::MacOsParent { ns_view: 5, ns_window: 6 };
    assert_eq!(
        resolve_parent(&mac, Platform::MacOs),
        Ok(NativeHandle::MacOsView { ns_view: 5, ns_window: 6 })
    );
}

#[test]
fn resolver_rejects_foreign_tags() {
    let p = unix_parent();
    assert_eq!(
        resolve_parent(&p, Platform::Windows),
        Err(EditorError::HandleMismatch)
    );
    assert_eq!(
        resolve_parent(&p, Platform::MacOs),
        Err(EditorError::HandleMismatch)
    );
}

#[test]
fn open_close_open_succeeds_again() {
    let mut sys = WindowSystem::new(Platform::Unix, true);
    let mut session = EditorSession::new();
    let parent = unix_parent();

    assert_eq!(
        session.open(&mut sys, &parent, 100, "BaseviewTest".to_string()),
        Ok(())
    );
    session.close(&mut sys);
    assert_eq!(
        session.open(&mut sys, &parent, 101, "BaseviewTest".to_string()),
        Ok(())
    );
    assert!(session.is_open());
    assert_eq!(sys.live_windows, 1);
    assert_eq!(sys.live_surfaces, 1);
}

#[test]
fn is_open_tracks_lifecycle() {
    let mut sys = WindowSystem::new(Platform::Unix, true);
    let mut session = EditorSession::new();
    assert!(!session.is_open());

    let parent = unix_parent();
    assert_eq!(
        session.open(&mut sys, &parent, 100, "BaseviewTest".to_string()),
        Ok(())
    );
    assert!(session.is_open());

    session.close(&mut sys);
    assert!(!session.is_open());
}

#[test]
fn close_twice_observes_same_state_as_once() {
    let mut sys = WindowSystem::new(Platform::Unix, true);
    let mut session = EditorSession::new();
    let parent = unix_parent();
    session
        .open(&mut sys, &parent, 100, "BaseviewTest".to_string())
        .unwrap();

    session.close(&mut sys);
    let after_once = (session.is_open(), sys.live_windows, sys.live_surfaces, sys.log.len());
    session.close(&mut sys);
    let after_twice = (session.is_open(), sys.live_windows, sys.live_surfaces, sys.log.len());
    assert_eq!(after_once, after_twice);
    assert_eq!(after_twice, (false, 0, 0, 0));
}

#[test]
fn position_and_size_are_constant_in_both_states() {
    let mut sys = WindowSystem::new(Platform::Unix, true);
    let mut session = EditorSession::new();
    assert_eq!(session.position(), (0, 0));
    assert_eq!(session.size(), (500, 500));

    let parent = unix_parent();
    session
        .open(&mut sys, &parent, 100, "BaseviewTest".to_string())
        .unwrap();
    assert_eq!(session.position(), (0, 0));
    assert_eq!(session.size(), (500, 500));

    session.close(&mut sys);
    assert_eq!(session.position(), (0, 0));
    assert_eq!(session.size(), (500, 500));
}

#[test]
fn mismatched_tag_leaves_session_closed_and_leaks_nothing() {
    let mut sys = WindowSystem::new(Platform::Windows, true);
    let mut session = EditorSession::new();
    let windows_before = sys.live_windows;
    let surfaces_before = sys.live_surfaces;

    let parent = unix_parent();
    assert_eq!(
        session.open(&mut sys, &parent, 100, "BaseviewTest".to_string()),
        Err(EditorError::HandleMismatch)
    );
    assert!(!session.is_open());
    assert_eq!(sys.live_windows, windows_before);
    assert_eq!(sys.live_surfaces, surfaces_before);
    assert!(sys.log.is_empty());
}

#[test]
fn rejected_surface_destroys_partial_window_before_returning() {
    let mut sys = WindowSystem::new(Platform::Unix, false);
    let mut session = EditorSession::new();
    let windows_before = sys.live_windows;

    let parent = unix_parent();
    assert_eq!(
        session.open(&mut sys, &parent, 100, "BaseviewTest".to_string()),
        Err(EditorError::SurfaceCreation)
    );
    assert!(!session.is_open());
    assert_eq!(sys.live_windows, windows_before);
    assert_eq!(sys.live_surfaces, 0);
    assert_eq!(sys.log, vec![LogEvent::SurfaceCreationFailed]);
}

#[test]
fn render_fault_is_logged_and_session_stays_open() {
    let mut sys = WindowSystem::new(Platform::Unix, true);
    let mut session = EditorSession::new();
    let parent = unix_parent();
    session
        .open(&mut sys, &parent, 100, "BaseviewTest".to_string())
        .unwrap();

    session.note_render_fault(&mut sys);
    assert!(session.is_open());
    assert_eq!(sys.live_windows, 1);
    assert_eq!(sys.live_surfaces, 1);
    assert_eq!(sys.log, vec![LogEvent::RenderFault]);
    assert_eq!(LogEvent::RenderFault.level(), LogLevel::Error);
    assert_eq!(LogEvent::Initialized.level(), LogLevel::Info);
}

#[test]
fn adapter_reports_success_and_failure_as_bool() {
    let mut sys = WindowSystem::new(Platform::Unix, true);
    let mut adapter = PluginEditorAdapter::new();
    assert!(!adapter.is_open());
    assert_eq!(adapter.position(), (0, 0));
    assert_eq!(adapter.size(), (500, 500));

    let parent = unix_parent();
    assert!(adapter.open(&mut sys, &parent, 100, "BaseviewTest".to_string()));
    assert!(adapter.is_open());

    // A second open on an already open editor changes nothing and fails.
    assert!(!adapter.open(&mut sys, &parent, 101, "BaseviewTest".to_string()));
    assert!(adapter.is_open());
    assert_eq!(sys.live_windows, 1);

    adapter.close(&mut sys);
    assert!(!adapter.is_open());
    assert_eq!(sys.live_windows, 0);
    assert_eq!(sys.live_surfaces, 0);

    let mismatched = ParentHandle::Win32Parent { hwnd: 9 };
    assert!(!adapter.open(&mut sys, &mismatched, 102, "BaseviewTest".to_string()));
    assert!(!adapter.is_open());
}
