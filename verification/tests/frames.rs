use editor_bridge::handle::{ParentHandle, Platform};
use editor_bridge::plugin::PluginInstance;
use editor_bridge::render::{frame_scene, DrawCmd, WINDOW_HEIGHT, WINDOW_WIDTH};
use editor_bridge::session::EditorSession;
use editor_bridge::system::{LogEvent, WindowSystem};

fn expected_scene(width: u32, height: u32) -> Vec<DrawCmd> {
    vec![
        DrawCmd::SetColor { red: 5, green: 5, blue: 5 },
        DrawCmd::FillRect { x: 0, y: 0, width, height },
        DrawCmd::SetColor { red: 2, green: 2, blue: 2 },
        DrawCmd::FillRect { x: 200, y: 200, width: 100, height: 100 },
        DrawCmd::SetColor { red: 9, green: 9, blue: 9 },
        DrawCmd::FillCircle { center_x: 200, center_y: 200, radius: 40 },
        DrawCmd::SetColor { red: 2, green: 2, blue: 10 },
        DrawCmd::SetMonospaceFont { size: 13 },
        DrawCmd::MoveTo { x: 10, y: 10 },
        DrawCmd::ShowText { text: "Hello from Rust VST code!".to_string() },
        DrawCmd::Flush,
    ]
}

#[test]
fn frame_scene_is_the_fixed_demo_scene() {
    assert_eq!(frame_scene(500, 500), expected_scene(500, 500));
    assert_eq!(frame_scene(320, 200), expected_scene(320, 200));
}

#[test]
fn open_session_renders_every_tick_and_closed_session_renders_nothing() {
    let mut sys = WindowSystem::new(Platform::Unix, true);
    let mut session = EditorSession::new();
    assert_eq!(session.on_frame(), None);

    let parent = ParentHandle::XlibParent { window: 1, display: 2 };
    session
        .open(&mut sys, &parent, 100, "BaseviewTest".to_string())
        .unwrap();
    let cmds = session.on_frame().expect("an open session draws");
    assert_eq!(cmds, expected_scene(WINDOW_WIDTH, WINDOW_HEIGHT));
    assert_eq!(session.on_frame().unwrap(), cmds);
    assert!(sys.log.is_empty());

    session.close(&mut sys);
    assert_eq!(session.on_frame(), None);
}

#[test]
fn plugin_metadata_is_fixed() {
    let plugin = PluginInstance::new();
    let info = plugin.info();
    assert_eq!(info.name, "BaseviewTest");
    assert_eq!(info.unique_id, 53435);
}

#[test]
fn plugin_init_emits_one_record() {
    let mut sys = WindowSystem::new(Platform::Unix, true);
    let plugin = PluginInstance::new();
    plugin.init(&mut sys);
    assert_eq!(sys.log, vec![LogEvent::Initialized]);
    assert_eq!(sys.live_windows, 0);
    assert_eq!(sys.live_surfaces, 0);
}

#[test]
fn editor_capability_is_handed_out_exactly_once() {
    let mut plugin = PluginInstance::new();
    let first = plugin.take_editor();
    assert!(first.is_some());
    assert!(plugin.take_editor().is_none());
    assert!(plugin.take_editor().is_none());

    let mut adapter = first.unwrap();
    assert!(!adapter.is_open());
    let mut sys = WindowSystem::new(Platform::MacOs, true);
    let parent = ParentHandle::MacOsParent { ns_view: 11, ns_window: 12 };
    assert!(adapter.open(&mut sys, &parent, 13, "BaseviewTest".to_string()));
    adapter.close(&mut sys);
}
