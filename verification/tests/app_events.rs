use open_context::app_events::{
    AppEvent, EventListener, NotificationLevel, ThemeMode, WindowChange, WindowId,
};
use serde_json::Value;

#[test]
fn test_window_id_creation() {
    let id = WindowId::new("main-window");
    assert_eq!(id.as_str(), "main-window");
}

#[test]
fn test_event_window_id_extraction() {
    let window_id = WindowId::new("test-window");
    let event = AppEvent::WindowCreated {
        window_id: window_id.clone(),
        label: "Test Window".to_string(),
        timestamp: AppEvent::now(),
    };

    assert_eq!(event.window_id(), Some(&window_id));
}

#[test]
fn test_event_name() {
    let event = AppEvent::AppReady { timestamp: AppEvent::now() };
    assert_eq!(event.event_name(), "app:ready");
}

#[test]
fn test_event_creation() {
    let event = AppEvent::AppReady { timestamp: AppEvent::now() };
    assert_eq!(event.event_name(), "app:ready");
}

#[test]
fn test_window_event_routing() {
    let window_id = WindowId::new("test-window");
    let event = AppEvent::WindowFocused { window_id: window_id.clone(), timestamp: AppEvent::now() };

    assert_eq!(event.window_id(), Some(&window_id));
    assert_eq!(event.event_name(), "window:focused");
}

#[test]
fn test_notification_event() {
    let event = AppEvent::Notification {
        title: "Test".to_string(),
        body: "Test notification".to_string(),
        level: NotificationLevel::Info,
        timestamp: AppEvent::now(),
    };

    assert_eq!(event.event_name(), "notification");
}

#[test]
fn every_event_has_its_name_and_time() {
    let w = WindowId::new("w");
    let cases: Vec<(AppEvent, &str, bool)> = vec![
        (AppEvent::AppStarted { version: "1".to_string(), timestamp: 7 }, "app:started", false),
        (AppEvent::AppWillQuit { timestamp: 7 }, "app:will_quit", false),
        (AppEvent::AppQuit { timestamp: 7 }, "app:quit", false),
        (AppEvent::WindowReady { window_id: w.clone(), timestamp: 7 }, "window:ready", true),
        (AppEvent::WindowShown { window_id: w.clone(), timestamp: 7 }, "window:shown", true),
        (AppEvent::WindowHidden { window_id: w.clone(), timestamp: 7 }, "window:hidden", true),
        (AppEvent::WindowBlurred { window_id: w.clone(), timestamp: 7 }, "window:blurred", true),
        (AppEvent::WindowClosed { window_id: w.clone(), timestamp: 7 }, "window:closed", true),
        (
            AppEvent::WindowMoved { window_id: w.clone(), x: 1, y: 2, timestamp: 7 },
            "window:moved",
            true,
        ),
        (
            AppEvent::WindowResized { window_id: w.clone(), width: 3, height: 4, timestamp: 7 },
            "window:resized",
            true,
        ),
        (AppEvent::WindowMinimized { window_id: w.clone(), timestamp: 7 }, "window:minimized", true),
        (AppEvent::WindowMaximized { window_id: w.clone(), timestamp: 7 }, "window:maximized", true),
        (AppEvent::WindowRestored { window_id: w.clone(), timestamp: 7 }, "window:restored", true),
        (
            AppEvent::WindowFullscreen { window_id: w.clone(), timestamp: 7 },
            "window:fullscreen",
            true,
        ),
        (AppEvent::ThemeChanged { theme: ThemeMode::Dark, timestamp: 7 }, "theme:changed", false),
        (
            AppEvent::LocaleChanged { locale: "en".to_string(), timestamp: 7 },
            "locale:changed",
            false,
        ),
        (
            AppEvent::ServiceStarted { service_name: "s".to_string(), port: Some(1), timestamp: 7 },
            "service:started",
            false,
        ),
        (
            AppEvent::ServiceError {
                service_name: "s".to_string(),
                error: "e".to_string(),
                timestamp: 7,
            },
            "service:error",
            false,
        ),
        (
            AppEvent::UpdateAvailable {
                version: "2".to_string(),
                release_notes: None,
                timestamp: 7,
            },
            "update:available",
            false,
        ),
        (
            AppEvent::UpdateDownloaded { version: "2".to_string(), timestamp: 7 },
            "update:downloaded",
            false,
        ),
        (
            AppEvent::NetworkStatusChanged { online: true, timestamp: 7 },
            "network:status_changed",
            false,
        ),
        (
            AppEvent::TaskCreated {
                task_id: "t".to_string(),
                task_type: "k".to_string(),
                timestamp: 7,
            },
            "task:created",
            false,
        ),
        (
            AppEvent::TaskStarted {
                task_id: "t".to_string(),
                task_type: "k".to_string(),
                timestamp: 7,
            },
            "task:started",
            false,
        ),
        (
            AppEvent::TaskProgress {
                task_id: "t".to_string(),
                task_type: "k".to_string(),
                progress: 5,
                message: None,
                timestamp: 7,
            },
            "task:progress",
            false,
        ),
        (
            AppEvent::TaskCompleted {
                task_id: "t".to_string(),
                task_type: "k".to_string(),
                result: Some(Value::Null),
                timestamp: 7,
            },
            "task:completed",
            false,
        ),
        (
            AppEvent::TaskFailed {
                task_id: "t".to_string(),
                task_type: "k".to_string(),
                error: "e".to_string(),
                timestamp: 7,
            },
            "task:failed",
            false,
        ),
        (
            AppEvent::TaskCancelled {
                task_id: "t".to_string(),
                task_type: "k".to_string(),
                timestamp: 7,
            },
            "task:cancelled",
            false,
        ),
        (
            AppEvent::Custom {
                name: "my:event".to_string(),
                payload: Value::Null,
                window_id: Some(w.clone()),
                timestamp: 7,
            },
            "my:event",
            true,
        ),
        (
            AppEvent::Custom {
                name: "other".to_string(),
                payload: Value::Null,
                window_id: None,
                timestamp: 7,
            },
            "other",
            false,
        ),
    ];
    for (event, name, has_window) in cases {
        assert_eq!(event.event_name(), name);
        assert_eq!(event.timestamp(), 7);
        assert_eq!(event.window_id(), if has_window { Some(&w) } else { None });
    }
}

#[test]
fn window_changes_raise_events() {
    let w = WindowId::new("main");
    let focused = EventListener::window_event(&w, WindowChange::Focused(true), 5).unwrap();
    assert_eq!(focused.event_name(), "window:focused");
    assert_eq!(focused.timestamp(), 5);
    assert_eq!(focused.window_id(), Some(&w));
    let blurred = EventListener::window_event(&w, WindowChange::Focused(false), 5).unwrap();
    assert_eq!(blurred.event_name(), "window:blurred");
    match EventListener::window_event(&w, WindowChange::Moved { x: -3, y: 9 }, 6).unwrap() {
        AppEvent::WindowMoved { x, y, timestamp, .. } => {
            assert_eq!((x, y, timestamp), (-3, 9, 6));
        }
        other => panic!("unexpected event {:?}", other),
    }
    match EventListener::window_event(&w, WindowChange::Resized { width: 800, height: 600 }, 7)
        .unwrap()
    {
        AppEvent::WindowResized { width, height, timestamp, .. } => {
            assert_eq!((width, height, timestamp), (800, 600, 7));
        }
        other => panic!("unexpected event {:?}", other),
    }
    let closed = EventListener::window_event(&w, WindowChange::CloseRequested, 8).unwrap();
    assert_eq!(closed.event_name(), "window:closed");
    assert!(EventListener::window_event(&w, WindowChange::Other, 9).is_none());
}

#[test]
fn window_ids_come_from_labels() {
    let owned = WindowId::from("main".to_string());
    let borrowed = WindowId::from("main");
    assert_eq!(owned, borrowed);
    assert_eq!(owned.as_str(), "main");
    let into: WindowId = "side".into();
    assert_eq!(into.as_str(), "side");
    let empty: WindowId = String::new().into();
    assert_eq!(empty.as_str(), "");
}
