//! The events that the application sends to its windows.

use vstd::prelude::*;
use crate::clock::now_millis;

verus! {

/// The label of a window.
#[derive(Debug, PartialEq, Eq, Hash)]
pub struct WindowId(pub String);

impl Clone for WindowId {
    fn clone(&self) -> (copy: Self)
        ensures
            copy == *self,
    {
        WindowId(self.0.clone())
    }
}

impl WindowId {
    /// The identifier of the window with the label `id`.
    pub fn new(id: &str) -> (window: Self)
        ensures
            window.0@ == id@,
    {
        WindowId(id.to_owned())
    }

    /// The label as text.
    pub fn as_str(&self) -> (s: &str)
        ensures
            s@ == self.0@,
    {
        self.0.as_str()
    }
}

impl From<String> for WindowId {
    /// The identifier of the window with the label `id`.
    fn from(id: String) -> (window: Self) {
        WindowId(id)
    }
}

impl vstd::std_specs::convert::FromSpecImpl<String> for WindowId {
    open spec fn obeys_from_spec() -> bool {
        true
    }

    open spec fn from_spec(id: String) -> Self {
        WindowId(id)
    }
}

impl<'a> From<&'a str> for WindowId {
    /// The identifier of the window with the label `id`.
    fn from(id: &'a str) -> (window: Self)
        ensures
            window.0@ == id@,
    {
        WindowId(id.to_owned())
    }
}

impl<'a> vstd::std_specs::convert::FromSpecImpl<&'a str> for WindowId {
    /// A label that is borrowed has to be copied, and no function says
    /// which copy comes back: the conversion states its result itself.
    open spec fn obeys_from_spec() -> bool {
        false
    }

    open spec fn from_spec(id: &'a str) -> Self {
        arbitrary()
    }
}

/// What the application looked like at one moment.
#[derive(Debug, Clone)]
pub struct AppStateSnapshot {
    pub version: String,
    pub active_windows: usize,
    pub services_running: Vec<String>,
    pub theme: ThemeMode,
    pub locale: String,
}

/// The colour scheme of the user interface.
#[derive(Debug, Clone, Copy, PartialEq, Eq, Structural)]
pub enum ThemeMode {
    Light,
    Dark,
    System,
}

/// Why a backend service stopped.
#[derive(Debug, Clone)]
pub enum ServiceStopReason {
    UserRequested,
    Crashed,
    AppQuit,
    Timeout,
    Other(String),
}

/// How urgent a notification is.
#[derive(Debug, Clone, Copy, PartialEq, Eq, Structural)]
pub enum NotificationLevel {
    Info,
    Warning,
    Error,
    Success,
}

/// One event. Every event carries the time at which it was raised, in
/// milliseconds since the Unix epoch.
#[derive(Debug, Clone)]
pub enum AppEvent {
    /// The application has started.
    AppStarted { version: String, timestamp: i64 },
    /// The application has finished starting.
    AppReady { timestamp: i64 },
    /// The application is about to quit.
    AppWillQuit { timestamp: i64 },
    /// The application has quit.
    AppQuit { timestamp: i64 },
    /// A window was created.
    WindowCreated { window_id: WindowId, label: String, timestamp: i64 },
    /// A window has finished loading.
    WindowReady { window_id: WindowId, timestamp: i64 },
    /// A window was shown.
    WindowShown { window_id: WindowId, timestamp: i64 },
    /// A window was hidden.
    WindowHidden { window_id: WindowId, timestamp: i64 },
    /// A window gained the focus.
    WindowFocused { window_id: WindowId, timestamp: i64 },
    /// A window lost the focus.
    WindowBlurred { window_id: WindowId, timestamp: i64 },
    /// A window was closed.
    WindowClosed { window_id: WindowId, timestamp: i64 },
    /// A window was moved.
    WindowMoved { window_id: WindowId, x: i32, y: i32, timestamp: i64 },
    /// A window was resized.
    WindowResized { window_id: WindowId, width: u32, height: u32, timestamp: i64 },
    /// A window was minimized.
    WindowMinimized { window_id: WindowId, timestamp: i64 },
    /// A window was maximized.
    WindowMaximized { window_id: WindowId, timestamp: i64 },
    /// A window came back from its minimized or maximized state.
    WindowRestored { window_id: WindowId, timestamp: i64 },
    /// A window went full screen.
    WindowFullscreen { window_id: WindowId, timestamp: i64 },
    /// The state of the application changed.
    AppStateChanged { old_state: AppStateSnapshot, new_state: AppStateSnapshot, timestamp: i64 },
    /// The theme changed.
    ThemeChanged { theme: ThemeMode, timestamp: i64 },
    /// The locale changed.
    LocaleChanged { locale: String, timestamp: i64 },
    /// A backend service started.
    ServiceStarted { service_name: String, port: Option<u16>, timestamp: i64 },
    /// A backend service stopped.
    ServiceStopped { service_name: String, reason: ServiceStopReason, timestamp: i64 },
    /// A backend service reported an error.
    ServiceError { service_name: String, error: String, timestamp: i64 },
    /// A notification for the user.
    Notification { title: String, body: String, level: NotificationLevel, timestamp: i64 },
    /// An update can be had.
    UpdateAvailable { version: String, release_notes: Option<String>, timestamp: i64 },
    /// An update was downloaded.
    UpdateDownloaded { version: String, timestamp: i64 },
    /// The network came or went.
    NetworkStatusChanged { online: bool, timestamp: i64 },
    /// A task was created.
    TaskCreated { task_id: String, task_type: String, timestamp: i64 },
    /// A task started to run.
    TaskStarted { task_id: String, task_type: String, timestamp: i64 },
    /// A task reported progress.
    TaskProgress { task_id: String, task_type: String, progress: u8, message: Option<String>, timestamp: i64 },
    /// A task completed.
    TaskCompleted { task_id: String, task_type: String, result: Option<serde_json::Value>, timestamp: i64 },
    /// A task failed.
    TaskFailed { task_id: String, task_type: String, error: String, timestamp: i64 },
    /// A task was cancelled.
    TaskCancelled { task_id: String, task_type: String, timestamp: i64 },
    /// An event of the caller's own, under the caller's name.
    Custom { name: String, payload: serde_json::Value, window_id: Option<WindowId>, timestamp: i64 },
}

impl AppEvent {
    /// The window that the event belongs to, where it belongs to one.
    pub open spec fn window(self) -> Option<WindowId> {
        match self {
            AppEvent::WindowCreated { window_id, .. } => Some(window_id),
            AppEvent::WindowReady { window_id, .. } => Some(window_id),
            AppEvent::WindowShown { window_id, .. } => Some(window_id),
            AppEvent::WindowHidden { window_id, .. } => Some(window_id),
            AppEvent::WindowFocused { window_id, .. } => Some(window_id),
            AppEvent::WindowBlurred { window_id, .. } => Some(window_id),
            AppEvent::WindowClosed { window_id, .. } => Some(window_id),
            AppEvent::WindowMoved { window_id, .. } => Some(window_id),
            AppEvent::WindowResized { window_id, .. } => Some(window_id),
            AppEvent::WindowMinimized { window_id, .. } => Some(window_id),
            AppEvent::WindowMaximized { window_id, .. } => Some(window_id),
            AppEvent::WindowRestored { window_id, .. } => Some(window_id),
            AppEvent::WindowFullscreen { window_id, .. } => Some(window_id),
            AppEvent::Custom { window_id, .. } => window_id,
            _ => None,
        }
    }

    /// The time at which the event was raised.
    pub open spec fn raised_at(self) -> i64 {
        match self {
            AppEvent::AppStarted { timestamp, .. } => timestamp,
            AppEvent::AppReady { timestamp, .. } => timestamp,
            AppEvent::AppWillQuit { timestamp, .. } => timestamp,
            AppEvent::AppQuit { timestamp, .. } => timestamp,
            AppEvent::WindowCreated { timestamp, .. } => timestamp,
            AppEvent::WindowReady { timestamp, .. } => timestamp,
            AppEvent::WindowShown { timestamp, .. } => timestamp,
            AppEvent::WindowHidden { timestamp, .. } => timestamp,
            AppEvent::WindowFocused { timestamp, .. } => timestamp,
            AppEvent::WindowBlurred { timestamp, .. } => timestamp,
            AppEvent::WindowClosed { timestamp, .. } => timestamp,
            AppEvent::WindowMoved { timestamp, .. } => timestamp,
            AppEvent::WindowResized { timestamp, .. } => timestamp,
            AppEvent::WindowMinimized { timestamp, .. } => timestamp,
            AppEvent::WindowMaximized { timestamp, .. } => timestamp,
            AppEvent::WindowRestored { timestamp, .. } => timestamp,
            AppEvent::WindowFullscreen { timestamp, .. } => timestamp,
            AppEvent::AppStateChanged { timestamp, .. } => timestamp,
            AppEvent::ThemeChanged { timestamp, .. } => timestamp,
            AppEvent::LocaleChanged { timestamp, .. } => timestamp,
            AppEvent::ServiceStarted { timestamp, .. } => timestamp,
            AppEvent::ServiceStopped { timestamp, .. } => timestamp,
            AppEvent::ServiceError { timestamp, .. } => timestamp,
            AppEvent::Notification { timestamp, .. } => timestamp,
            AppEvent::UpdateAvailable { timestamp, .. } => timestamp,
            AppEvent::UpdateDownloaded { timestamp, .. } => timestamp,
            AppEvent::NetworkStatusChanged { timestamp, .. } => timestamp,
            AppEvent::TaskCreated { timestamp, .. } => timestamp,
            AppEvent::TaskStarted { timestamp, .. } => timestamp,
            AppEvent::TaskProgress { timestamp, .. } => timestamp,
            AppEvent::TaskCompleted { timestamp, .. } => timestamp,
            AppEvent::TaskFailed { timestamp, .. } => timestamp,
            AppEvent::TaskCancelled { timestamp, .. } => timestamp,
            AppEvent::Custom { timestamp, .. } => timestamp,
        }
    }

    /// The name of the channel on which the event goes out.
    pub open spec fn name(self) -> Seq<char> {
        match self {
            AppEvent::AppStarted { .. } => "app:started"@,
            AppEvent::AppReady { .. } => "app:ready"@,
            AppEvent::AppWillQuit { .. } => "app:will_quit"@,
            AppEvent::AppQuit { .. } => "app:quit"@,
            AppEvent::WindowCreated { .. } => "window:created"@,
            AppEvent::WindowReady { .. } => "window:ready"@,
            AppEvent::WindowShown { .. } => "window:shown"@,
            AppEvent::WindowHidden { .. } => "window:hidden"@,
            AppEvent::WindowFocused { .. } => "window:focused"@,
            AppEvent::WindowBlurred { .. } => "window:blurred"@,
            AppEvent::WindowClosed { .. } => "window:closed"@,
            AppEvent::WindowMoved { .. } => "window:moved"@,
            AppEvent::WindowResized { .. } => "window:resized"@,
            AppEvent::WindowMinimized { .. } => "window:minimized"@,
            AppEvent::WindowMaximized { .. } => "window:maximized"@,
            AppEvent::WindowRestored { .. } => "window:restored"@,
            AppEvent::WindowFullscreen { .. } => "window:fullscreen"@,
            AppEvent::AppStateChanged { .. } => "app_state:changed"@,
            AppEvent::ThemeChanged { .. } => "theme:changed"@,
            AppEvent::LocaleChanged { .. } => "locale:changed"@,
            AppEvent::ServiceStarted { .. } => "service:started"@,
            AppEvent::ServiceStopped { .. } => "service:stopped"@,
            AppEvent::ServiceError { .. } => "service:error"@,
            AppEvent::Notification { .. } => "notification"@,
            AppEvent::UpdateAvailable { .. } => "update:available"@,
            AppEvent::UpdateDownloaded { .. } => "update:downloaded"@,
            AppEvent::NetworkStatusChanged { .. } => "network:status_changed"@,
            AppEvent::TaskCreated { .. } => "task:created"@,
            AppEvent::TaskStarted { .. } => "task:started"@,
            AppEvent::TaskProgress { .. } => "task:progress"@,
            AppEvent::TaskCompleted { .. } => "task:completed"@,
            AppEvent::TaskFailed { .. } => "task:failed"@,
            AppEvent::TaskCancelled { .. } => "task:cancelled"@,
            AppEvent::Custom { name, .. } => name@,
        }
    }

    /// The window that the event belongs to, where it belongs to one.
    pub fn window_id(&self) -> (window: Option<&WindowId>)
        ensures
            match window {
                Some(w) => self.window() == Some(*w),
                None => self.window().is_none(),
            },
    {
        match self {
            AppEvent::WindowCreated { window_id, .. }
            | AppEvent::WindowReady { window_id, .. }
            | AppEvent::WindowShown { window_id, .. }
            | AppEvent::WindowHidden { window_id, .. }
            | AppEvent::WindowFocused { window_id, .. }
            | AppEvent::WindowBlurred { window_id, .. }
            | AppEvent::WindowClosed { window_id, .. }
            | AppEvent::WindowMoved { window_id, .. }
            | AppEvent::WindowResized { window_id, .. }
            | AppEvent::WindowMinimized { window_id, .. }
            | AppEvent::WindowMaximized { window_id, .. }
            | AppEvent::WindowRestored { window_id, .. }
            | AppEvent::WindowFullscreen { window_id, .. } => Some(window_id),
            AppEvent::Custom { window_id, .. } => window_id.as_ref(),
            _ => None,
        }
    }

    /// The time at which the event was raised.
    pub fn timestamp(&self) -> (at: i64)
        ensures
            at == self.raised_at(),
    {
        match self {
            AppEvent::AppStarted { timestamp, .. }
            | AppEvent::AppReady { timestamp, .. }
            | AppEvent::AppWillQuit { timestamp, .. }
            | AppEvent::AppQuit { timestamp, .. }
            | AppEvent::WindowCreated { timestamp, .. }
            | AppEvent::WindowReady { timestamp, .. }
            | AppEvent::WindowShown { timestamp, .. }
            | AppEvent::WindowHidden { timestamp, .. }
            | AppEvent::WindowFocused { timestamp, .. }
            | AppEvent::WindowBlurred { timestamp, .. }
            | AppEvent::WindowClosed { timestamp, .. }
            | AppEvent::WindowMoved { timestamp, .. }
            | AppEvent::WindowResized { timestamp, .. }
            | AppEvent::WindowMinimized { timestamp, .. }
            | AppEvent::WindowMaximized { timestamp, .. }
            | AppEvent::WindowRestored { timestamp, .. }
            | AppEvent::WindowFullscreen { timestamp, .. }
            | AppEvent::AppStateChanged { timestamp, .. }
            | AppEvent::ThemeChanged { timestamp, .. }
            | AppEvent::LocaleChanged { timestamp, .. }
            | AppEvent::ServiceStarted { timestamp, .. }
            | AppEvent::ServiceStopped { timestamp, .. }
            | AppEvent::ServiceError { timestamp, .. }
            | AppEvent::Notification { timestamp, .. }
            | AppEvent::UpdateAvailable { timestamp, .. }
            | AppEvent::UpdateDownloaded { timestamp, .. }
            | AppEvent::NetworkStatusChanged { timestamp, .. }
            | AppEvent::TaskCreated { timestamp, .. }
            | AppEvent::TaskStarted { timestamp, .. }
            | AppEvent::TaskProgress { timestamp, .. }
            | AppEvent::TaskCompleted { timestamp, .. }
            | AppEvent::TaskFailed { timestamp, .. }
            | AppEvent::TaskCancelled { timestamp, .. }
            | AppEvent::Custom { timestamp, .. } => *timestamp,
        }
    }

    /// The name of the channel on which the event goes out.
    pub fn event_name(&self) -> (name: String)
        ensures
            name@ == self.name(),
    {
        match self {
            AppEvent::AppStarted { .. } => "app:started".to_owned(),
            AppEvent::AppReady { .. } => "app:ready".to_owned(),
            AppEvent::AppWillQuit { .. } => "app:will_quit".to_owned(),
            AppEvent::AppQuit { .. } => "app:quit".to_owned(),
            AppEvent::WindowCreated { .. } => "window:created".to_owned(),
            AppEvent::WindowReady { .. } => "window:ready".to_owned(),
            AppEvent::WindowShown { .. } => "window:shown".to_owned(),
            AppEvent::WindowHidden { .. } => "window:hidden".to_owned(),
            AppEvent::WindowFocused { .. } => "window:focused".to_owned(),
            AppEvent::WindowBlurred { .. } => "window:blurred".to_owned(),
            AppEvent::WindowClosed { .. } => "window:closed".to_owned(),
            AppEvent::WindowMoved { .. } => "window:moved".to_owned(),
            AppEvent::WindowResized { .. } => "window:resized".to_owned(),
            AppEvent::WindowMinimized { .. } => "window:minimized".to_owned(),
            AppEvent::WindowMaximized { .. } => "window:maximized".to_owned(),
            AppEvent::WindowRestored { .. } => "window:restored".to_owned(),
            AppEvent::WindowFullscreen { .. } => "window:fullscreen".to_owned(),
            AppEvent::AppStateChanged { .. } => "app_state:changed".to_owned(),
            AppEvent::ThemeChanged { .. } => "theme:changed".to_owned(),
            AppEvent::LocaleChanged { .. } => "locale:changed".to_owned(),
            AppEvent::ServiceStarted { .. } => "service:started".to_owned(),
            AppEvent::ServiceStopped { .. } => "service:stopped".to_owned(),
            AppEvent::ServiceError { .. } => "service:error".to_owned(),
            AppEvent::Notification { .. } => "notification".to_owned(),
            AppEvent::UpdateAvailable { .. } => "update:available".to_owned(),
            AppEvent::UpdateDownloaded { .. } => "update:downloaded".to_owned(),
            AppEvent::NetworkStatusChanged { .. } => "network:status_changed".to_owned(),
            AppEvent::TaskCreated { .. } => "task:created".to_owned(),
            AppEvent::TaskStarted { .. } => "task:started".to_owned(),
            AppEvent::TaskProgress { .. } => "task:progress".to_owned(),
            AppEvent::TaskCompleted { .. } => "task:completed".to_owned(),
            AppEvent::TaskFailed { .. } => "task:failed".to_owned(),
            AppEvent::TaskCancelled { .. } => "task:cancelled".to_owned(),
            AppEvent::Custom { name, .. } => name.clone(),
        }
    }

    /// The current time, in milliseconds since the Unix epoch.
    pub fn now() -> (at: i64) {
        now_millis()
    }
}

/// What happened to a window, as the windowing system reports it.
#[derive(Debug, Clone, Copy, PartialEq, Eq, Structural)]
pub enum WindowChange {
    Focused(bool),
    Moved { x: i32, y: i32 },
    Resized { width: u32, height: u32 },
    CloseRequested,
    Other,
}

/// Turns what the windowing system reports into events.
#[derive(Debug)]
pub struct EventListener {}

impl EventListener {
    /// The event that a change of the window `window_id` at time `now`
    /// raises. A window that loses the focus is blurred; a request to close
    /// counts as closed; any other change raises nothing.
    pub open spec fn raised(window_id: WindowId, change: WindowChange, now: i64) -> Option<AppEvent> {
        match change {
            WindowChange::Focused(focused) => Some(
                if focused {
                    AppEvent::WindowFocused { window_id, timestamp: now }
                } else {
                    AppEvent::WindowBlurred { window_id, timestamp: now }
                },
            ),
            WindowChange::Moved { x, y } => Some(
                AppEvent::WindowMoved { window_id, x, y, timestamp: now },
            ),
            WindowChange::Resized { width, height } => Some(
                AppEvent::WindowResized { window_id, width, height, timestamp: now },
            ),
            WindowChange::CloseRequested => Some(AppEvent::WindowClosed { window_id, timestamp: now }),
            WindowChange::Other => None,
        }
    }

    /// The event that a change of the window `window_id` at time `now`
    /// raises.
    pub fn window_event(window_id: &WindowId, change: WindowChange, now: i64) -> (event: Option<
        AppEvent,
    >)
        ensures
            event == Self::raised(*window_id, change, now),
    {
        match change {
            WindowChange::Focused(focused) => Some(
                if focused {
                    AppEvent::WindowFocused { window_id: window_id.clone(), timestamp: now }
                } else {
                    AppEvent::WindowBlurred { window_id: window_id.clone(), timestamp: now }
                },
            ),
            WindowChange::Moved { x, y } => Some(
                AppEvent::WindowMoved { window_id: window_id.clone(), x, y, timestamp: now },
            ),
            WindowChange::Resized { width, height } => Some(
                AppEvent::WindowResized { window_id: window_id.clone(), width, height, timestamp: now },
            ),
            WindowChange::CloseRequested => Some(
                AppEvent::WindowClosed { window_id: window_id.clone(), timestamp: now },
            ),
            WindowChange::Other => None,
        }
    }
}

} // verus!
