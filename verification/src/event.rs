//! The event vocabulary of the loop.
//!
//! Everything that flows into a tick, and everything a tick hands back,
//! is one of the closed sets of values in this module: native events the
//! window system delivered, user events injected from other threads,
//! domain events the loop emits toward the application, and imperative
//! actions the embedder must perform on the native window or webview.

use vstd::prelude::*;

use crate::tasks::AsyncResultEvent;
use crate::window::WindowId;

verus! {

/// A recoverable condition the loop reports and survives.
///
/// Warnings surface only through the embedder's log; none of them stops
/// the loop.
#[derive(Clone, Copy, Debug, PartialEq, Eq, Structural)]
pub enum Warning {
    /// A native event arrived for a native window the registry has never
    /// known. The event is skipped.
    UnknownNativeWindow,
    /// A native event arrived for a window the registry no longer has.
    /// The event is skipped.
    WindowClosed,
    /// A window-open request arrived while a window already exists. The
    /// request is dropped; multiple windows are unsupported.
    MultipleWindowsUnsupported,
    /// A window command arrived while no window exists. The command is
    /// dropped.
    NoWindowForCommand,
}

/// An event the native window system delivered for one window.
#[derive(Clone, Debug)]
pub enum NativeWindowEvent {
    /// The inner size changed; physical pixels.
    Resized { width: u32, height: u32 },
    /// The outer position changed.
    Moved { x: i32, y: i32 },
    /// The user asked to close the window.
    CloseRequested,
    /// Focus was gained or lost.
    Focused { focused: bool },
    /// The scale factor changed; the backend proposes a new inner size in
    /// physical pixels alongside the new factor in milli-units.
    ScaleFactorChanged { scale_milli: u32, inner_width: u32, inner_height: u32 },
    /// A file was dropped onto the window.
    DroppedFile { path: String },
    /// A dragged file hovers over the window.
    HoveredFile { path: String },
    /// The hovering file left without being dropped.
    HoveredFileCancelled,
}

/// A keyboard event already raised to the structured form the application
/// speaks: a key value string plus the physical codes.
#[derive(Clone, Debug)]
pub struct KeyboardEvent {
    /// The key value, as the UI layer names keys: a single character for
    /// producible keys, a word such as a named control key otherwise.
    pub key: String,
    /// Physical scan code.
    pub scan_code: u32,
    /// Backend key code, where one is known for this key.
    pub key_code: Option<u32>,
    /// Pressed or released.
    pub pressed: bool,
}

/// The backend-shaped keyboard-input event synthesized from a
/// [`KeyboardEvent`].
#[derive(Clone, Copy, Debug, PartialEq, Eq, Structural)]
pub struct KeyboardInput {
    pub scan_code: u32,
    pub key_code: Option<u32>,
    pub pressed: bool,
}

/// The character a key value produces: exactly the single character of a
/// one-character key value. Multi-character values name control keys and
/// produce none.
pub open spec fn spec_producible_char(key: Seq<char>) -> Option<char> {
    if key.len() == 1 {
        Some(key[0])
    } else {
        None
    }
}

impl KeyboardEvent {
    /// The backend-shaped input event this keyboard event maps to.
    pub open spec fn spec_to_input(self) -> KeyboardInput {
        KeyboardInput { scan_code: self.scan_code, key_code: self.key_code, pressed: self.pressed }
    }

    /// Reshapes the event for consumers that speak the backend's input
    /// form.
    pub fn to_input(&self) -> (input: KeyboardInput)
        ensures
            input == self.spec_to_input(),
    {
        KeyboardInput { scan_code: self.scan_code, key_code: self.key_code, pressed: self.pressed }
    }

    /// The character this event produces, if its key value is a single
    /// character.
    pub fn try_to_char(&self) -> (c: Option<char>)
        ensures
            c == spec_producible_char(self.key@),
    {
        let s: &str = self.key.as_str();
        let mut it = s.chars();
        match it.next() {
            None => None,
            Some(first) => match it.next() {
                None => Some(first),
                Some(_) => None,
            },
        }
    }
}

/// An imperative window mutation the application requests of the loop.
///
/// Every one of these, once handled, queues exactly one redraw request,
/// whether or not it changes anything visible.
#[derive(Clone, Debug)]
pub enum WindowCommand {
    /// Re-render the webview contents.
    Update,
    /// Ask the window to close.
    Close,
    /// Begin a user-driven window drag; honored only while windowed.
    Drag,
    Visible { visible: bool },
    Minimize { minimized: bool },
    Maximize { maximized: bool },
    /// Flip the maximized flag.
    MaximizeToggle,
    /// Flip between windowed and fullscreen presentation.
    FullscreenToggle,
    /// Give the window focus.
    Focus,
    Resizable { resizable: bool },
    AlwaysOnTop { always_on_top: bool },
    CursorVisible { visible: bool },
    CursorGrab { grab: bool },
    SetTitle { title: String },
    SetDecorations { decorations: bool },
    /// Webview zoom level in milli-units.
    SetZoomLevel { zoom_milli: u64 },
    /// Open the print dialog.
    Print,
    /// Open the developer tools.
    DevTools,
    /// Evaluate a script in the webview.
    Eval { script: String },
}

/// An event injected into the loop from outside the native window system:
/// what the cross-thread bridge carries.
#[derive(Clone, Debug)]
pub enum UserEvent {
    WindowCommand { command: WindowCommand },
    /// An opaque application-level command, forwarded verbatim.
    DomainCommand { payload: Vec<u8> },
    /// The terminal event of one background task.
    AsyncResult { result: AsyncResultEvent },
    Keyboard { event: KeyboardEvent },
}

/// An event the loop emits toward the application layer.
#[derive(Clone, Debug)]
pub enum DomainEvent {
    /// The logical size changed beyond the tolerance; millipixels.
    WindowResized { id: WindowId, width_milli: u64, height_milli: u64 },
    WindowMoved { id: WindowId, x: i32, y: i32 },
    WindowCloseRequested { id: WindowId },
    WindowFocused { id: WindowId, focused: bool },
    /// The backend reported a new scale factor; emitted for every such
    /// report.
    WindowBackendScaleFactorChanged { id: WindowId, scale_milli: u32 },
    /// The effective scale factor actually changed (no override pinned it).
    WindowScaleFactorChanged { id: WindowId, scale_milli: u32 },
    FileDropped { id: WindowId, path: String },
    FileHovered { id: WindowId, path: String },
    FileHoverCancelled { id: WindowId },
    /// Raw pointer motion, forwarded whatever the focus state; millipixels.
    MouseMotion { delta_x_milli: i64, delta_y_milli: i64 },
    /// The structured keyboard event itself.
    Keyboard { event: KeyboardEvent },
    /// The backend-shaped keyboard-input event.
    KeyboardInput { input: KeyboardInput },
    /// The character a producible key yielded.
    ReceivedCharacter { ch: char },
    /// An opaque application-level command, forwarded verbatim.
    DomainCommand { payload: Vec<u8> },
    /// The terminal event of one background task.
    AsyncResult { result: AsyncResultEvent },
}

/// An imperative operation the embedder must perform on the native window
/// or webview. These calls are fallible on the native side; their failures
/// are logged there, never fed back into the loop.
#[derive(Clone, Debug)]
pub enum NativeAction {
    /// Re-render the webview contents.
    Rerender,
    /// Begin the user-driven window drag.
    Drag,
    SetVisible { visible: bool },
    SetMinimized { minimized: bool },
    SetMaximized { maximized: bool },
    SetFullscreen { fullscreen: bool },
    SetResizable { resizable: bool },
    SetAlwaysOnTop { always_on_top: bool },
    SetCursorVisible { visible: bool },
    SetCursorGrab { grab: bool },
    SetTitle { title: String },
    SetDecorations { decorations: bool },
    SetZoomLevel { zoom_milli: u64 },
    Print,
    OpenDevTools,
    EvalScript { script: String },
    /// Force the native inner size, in physical pixels; issued when a
    /// configured scale-factor override overrules the backend-proposed
    /// size.
    SetInnerSize { width: u32, height: u32 },
}

} // verus!
