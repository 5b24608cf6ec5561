//! The run loop's state machine.
//!
//! The native backend drives the loop as callbacks: a tick opens with
//! [`RunLoop::start_tick`], native and user events are applied one by one,
//! [`RunLoop::main_events_cleared`] decides whether application state is
//! recomputed, and [`RunLoop::finish_tick`] computes the control directive
//! the backend is handed back — run again immediately, sleep until a
//! deadline, or terminate. Each function here is the decision for one
//! callback; performing the native side effects (and supplying the clock)
//! is the embedder's part.

use vstd::prelude::*;

use crate::event::{
    DomainEvent, NativeAction, NativeWindowEvent, UserEvent, Warning, WindowCommand,
    spec_producible_char,
};
use crate::policy::{UpdateMode, UpdateModeSettings, sat_add_u64};
use crate::registry::{OpenWindowRequest, WindowRegistry};
use crate::window::{WindowId, WindowMode, WindowState};

verus! {

/// What the loop tells the native backend to do next.
#[derive(Clone, Copy, Debug, PartialEq, Eq, Structural)]
pub enum ControlDirective {
    /// Run the next tick immediately; do not sleep.
    PollImmediately,
    /// Sleep until the given instant, in milliseconds, unless an event
    /// arrives first.
    WaitUntil { deadline_ms: u64 },
    /// Stop the loop; no further ticks.
    Terminate,
}

/// The loop's own mutable state, distinct from any window's.
#[derive(Clone, Copy, Debug, PartialEq, Eq, Structural)]
pub struct LoopState {
    /// False between the native suspend and resume signals.
    pub active: bool,
    /// A native window event was seen this tick.
    pub low_power_event: bool,
    /// A redraw request was seen last tick.
    pub redraw_request_sent: bool,
    /// The configured max-wait had elapsed when this tick began.
    pub timeout_reached: bool,
    /// When application state was last recomputed, in milliseconds.
    pub last_update_ms: u64,
    /// Redraw requests queued so far this tick.
    pub redraws_this_tick: u64,
}

impl LoopState {
    /// The state the loop starts in: active, nothing seen, last update
    /// set to the moment of construction.
    pub open spec fn spec_initial(now_ms: u64) -> LoopState {
        LoopState {
            active: true,
            low_power_event: false,
            redraw_request_sent: false,
            timeout_reached: false,
            last_update_ms: now_ms,
            redraws_this_tick: 0,
        }
    }

    /// Builds [`LoopState::spec_initial`].
    pub fn initial(now_ms: u64) -> (st: LoopState)
        ensures
            st == LoopState::spec_initial(now_ms),
    {
        LoopState {
            active: true,
            low_power_event: false,
            redraw_request_sent: false,
            timeout_reached: false,
            last_update_ms: now_ms,
            redraws_this_tick: 0,
        }
    }
}

impl Default for LoopState {
    /// The state of a loop whose clock starts at zero.
    fn default() -> (st: LoopState)
        ensures
            st == LoopState::spec_initial(0),
    {
        LoopState::initial(0)
    }
}

/// Whether the configured max-wait has elapsed since the last update.
/// `Continuous` has no max-wait and never reaches one.
pub open spec fn spec_manual_timeout(mode: UpdateMode, now_ms: u64, last_update_ms: u64) -> bool {
    match mode {
        UpdateMode::Continuous => false,
        UpdateMode::Reactive { max_wait_ms } => now_ms - last_update_ms >= max_wait_ms,
        UpdateMode::ReactiveLowPower { max_wait_ms } => now_ms - last_update_ms >= max_wait_ms,
    }
}

/// The loop state a tick opens with: the tick-local input flag cleared and
/// the timeout flag set from what the backend reported and what the clock
/// shows.
pub open spec fn spec_start_tick(
    st: LoopState,
    mode: UpdateMode,
    now_ms: u64,
    auto_timeout_reached: bool,
) -> LoopState {
    LoopState {
        low_power_event: false,
        timeout_reached: auto_timeout_reached || spec_manual_timeout(mode, now_ms, st.last_update_ms),
        ..st
    }
}

/// Whether application state is recomputed this tick: only while active,
/// and — in the reactive modes — only when this tick saw native input, a
/// redraw was requested last tick, or the max-wait elapsed.
pub open spec fn spec_should_update(st: LoopState, mode: UpdateMode) -> bool {
    st.active && match mode {
        UpdateMode::Continuous => true,
        UpdateMode::Reactive { .. } => st.low_power_event || st.redraw_request_sent
            || st.timeout_reached,
        UpdateMode::ReactiveLowPower { .. } => st.low_power_event || st.redraw_request_sent
            || st.timeout_reached,
    }
}

/// The directive a tick ends with. An observed exit signal terminates,
/// overriding everything; a redraw request seen this tick polls; otherwise
/// `Continuous` polls and the reactive modes sleep until one max-wait
/// after the last update.
pub open spec fn spec_control_directive(
    mode: UpdateMode,
    last_update_ms: u64,
    redraw_seen: bool,
    exit_seen: bool,
) -> ControlDirective {
    if exit_seen {
        ControlDirective::Terminate
    } else if redraw_seen {
        ControlDirective::PollImmediately
    } else {
        match mode {
            UpdateMode::Continuous => ControlDirective::PollImmediately,
            UpdateMode::Reactive { max_wait_ms } => ControlDirective::WaitUntil {
                deadline_ms: sat_add_u64(last_update_ms, max_wait_ms),
            },
            UpdateMode::ReactiveLowPower { max_wait_ms } => ControlDirective::WaitUntil {
                deadline_ms: sat_add_u64(last_update_ms, max_wait_ms),
            },
        }
    }
}

/// The registry a native window event leaves behind, once its window is
/// resolved: state is mutated before any event is emitted, so whoever
/// reacts to the events observes consistent window state.
pub open spec fn spec_native_registry(reg: WindowRegistry, ev: NativeWindowEvent) -> WindowRegistry
    recommends
        reg.primary is Some,
{
    let s = reg.primary->Some_0.state;
    match ev {
        NativeWindowEvent::Resized { width, height } => reg.spec_with_state(
            s.spec_after_resize(width, height),
        ),
        NativeWindowEvent::Moved { x, y } => reg.spec_with_state(
            (WindowState { position_x: x, position_y: y, ..s }),
        ),
        NativeWindowEvent::CloseRequested => reg,
        NativeWindowEvent::Focused { focused } => reg.spec_with_state(
            (WindowState { focused, ..s }),
        ),
        NativeWindowEvent::ScaleFactorChanged { scale_milli, inner_width, inner_height } => reg
            .spec_with_state(s.spec_state_after_scale(scale_milli, inner_width, inner_height)),
        NativeWindowEvent::DroppedFile { .. } => reg,
        NativeWindowEvent::HoveredFile { .. } => reg,
        NativeWindowEvent::HoveredFileCancelled => reg,
    }
}

/// The domain events a native window event emits, in order, once its
/// window is resolved.
pub open spec fn spec_native_events(reg: WindowRegistry, ev: NativeWindowEvent) -> Seq<DomainEvent>
    recommends
        reg.primary is Some,
{
    let s = reg.primary->Some_0.state;
    let id = reg.primary->Some_0.id;
    match ev {
        NativeWindowEvent::Resized { width, height } => if s.spec_resize_emits(width, height) {
            seq![
                DomainEvent::WindowResized {
                    id,
                    width_milli: crate::window::logical_millis(
                        width as int,
                        s.spec_scale_milli(),
                    ) as u64,
                    height_milli: crate::window::logical_millis(
                        height as int,
                        s.spec_scale_milli(),
                    ) as u64,
                },
            ]
        } else {
            seq![]
        },
        NativeWindowEvent::Moved { x, y } => seq![DomainEvent::WindowMoved { id, x, y }],
        NativeWindowEvent::CloseRequested => seq![DomainEvent::WindowCloseRequested { id }],
        NativeWindowEvent::Focused { focused } => seq![DomainEvent::WindowFocused { id, focused }],
        NativeWindowEvent::ScaleFactorChanged { scale_milli, inner_width, inner_height } => {
            let o = s.spec_scale_outcome(scale_milli, inner_width, inner_height);
            seq![DomainEvent::WindowBackendScaleFactorChanged { id, scale_milli }] + (if o.rescaled {
                seq![DomainEvent::WindowScaleFactorChanged { id, scale_milli }]
            } else {
                seq![]
            }) + (match o.resized {
                Some(sz) => seq![
                    DomainEvent::WindowResized { id, width_milli: sz.0, height_milli: sz.1 },
                ],
                None => seq![],
            })
        },
        NativeWindowEvent::DroppedFile { path } => seq![DomainEvent::FileDropped { id, path }],
        NativeWindowEvent::HoveredFile { path } => seq![DomainEvent::FileHovered { id, path }],
        NativeWindowEvent::HoveredFileCancelled => seq![DomainEvent::FileHoverCancelled { id }],
    }
}

/// The native actions a native window event demands: only a forced inner
/// size, when an override overrules the backend-proposed size.
pub open spec fn spec_native_actions(reg: WindowRegistry, ev: NativeWindowEvent) -> Seq<
    NativeAction,
>
    recommends
        reg.primary is Some,
{
    let s = reg.primary->Some_0.state;
    match ev {
        NativeWindowEvent::ScaleFactorChanged { scale_milli, inner_width, inner_height } => {
            let o = s.spec_scale_outcome(scale_milli, inner_width, inner_height);
            if o.forced {
                seq![NativeAction::SetInnerSize { width: o.inner_width, height: o.inner_height }]
            } else {
                seq![]
            }
        },
        _ => seq![],
    }
}

/// The other of the two presentation modes.
pub open spec fn spec_toggled_mode(m: WindowMode) -> WindowMode {
    if m is Windowed {
        WindowMode::Fullscreen
    } else {
        WindowMode::Windowed
    }
}

/// The registry a window command leaves behind, given a window exists.
/// Commands that only drive the native side leave it untouched.
pub open spec fn spec_command_registry(reg: WindowRegistry, cmd: WindowCommand) -> WindowRegistry
    recommends
        reg.primary is Some,
{
    let s = reg.primary->Some_0.state;
    match cmd {
        WindowCommand::Minimize { minimized } => reg.spec_with_state(
            (WindowState { minimized, ..s }),
        ),
        WindowCommand::Maximize { maximized } => reg.spec_with_state(
            (WindowState { maximized, ..s }),
        ),
        WindowCommand::MaximizeToggle => reg.spec_with_state(
            (WindowState { maximized: !s.maximized, ..s }),
        ),
        WindowCommand::FullscreenToggle => reg.spec_with_state(
            (WindowState { mode: spec_toggled_mode(s.mode), ..s }),
        ),
        WindowCommand::Focus => reg.spec_with_state((WindowState { focused: true, ..s })),
        WindowCommand::Resizable { resizable } => reg.spec_with_state(
            (WindowState { resizable, ..s }),
        ),
        _ => reg,
    }
}

/// The native actions a window command demands, given a window exists.
/// A drag is honored only while windowed, as the native side refuses to
/// drag a fullscreen window.
pub open spec fn spec_command_actions(reg: WindowRegistry, cmd: WindowCommand) -> Seq<NativeAction>
    recommends
        reg.primary is Some,
{
    let s = reg.primary->Some_0.state;
    match cmd {
        WindowCommand::Update => seq![NativeAction::Rerender],
        WindowCommand::Close => seq![],
        WindowCommand::Drag => if s.mode is Windowed {
            seq![NativeAction::Drag]
        } else {
            seq![]
        },
        WindowCommand::Visible { visible } => seq![NativeAction::SetVisible { visible }],
        WindowCommand::Minimize { minimized } => seq![NativeAction::SetMinimized { minimized }],
        WindowCommand::Maximize { maximized } => seq![NativeAction::SetMaximized { maximized }],
        WindowCommand::MaximizeToggle => seq![
            NativeAction::SetMaximized { maximized: !s.maximized },
        ],
        WindowCommand::FullscreenToggle => seq![
            NativeAction::SetFullscreen { fullscreen: s.mode is Windowed },
        ],
        WindowCommand::Focus => seq![],
        WindowCommand::Resizable { resizable } => seq![NativeAction::SetResizable { resizable }],
        WindowCommand::AlwaysOnTop { always_on_top } => seq![
            NativeAction::SetAlwaysOnTop { always_on_top },
        ],
        WindowCommand::CursorVisible { visible } => seq![
            NativeAction::SetCursorVisible { visible },
        ],
        WindowCommand::CursorGrab { grab } => seq![NativeAction::SetCursorGrab { grab }],
        WindowCommand::SetTitle { title } => seq![NativeAction::SetTitle { title }],
        WindowCommand::SetDecorations { decorations } => seq![
            NativeAction::SetDecorations { decorations },
        ],
        WindowCommand::SetZoomLevel { zoom_milli } => seq![
            NativeAction::SetZoomLevel { zoom_milli },
        ],
        WindowCommand::Print => seq![NativeAction::Print],
        WindowCommand::DevTools => seq![NativeAction::OpenDevTools],
        WindowCommand::Eval { script } => seq![NativeAction::EvalScript { script }],
    }
}

/// The domain events a window command emits, given a window exists.
pub open spec fn spec_command_events(reg: WindowRegistry, cmd: WindowCommand) -> Seq<DomainEvent>
    recommends
        reg.primary is Some,
{
    let id = reg.primary->Some_0.id;
    match cmd {
        WindowCommand::Close => seq![DomainEvent::WindowCloseRequested { id }],
        WindowCommand::Focus => seq![DomainEvent::WindowFocused { id, focused: true }],
        _ => seq![],
    }
}

/// The fan-out of one injected keyboard event, in order: the structured
/// event itself, the backend-shaped input event, and — only when the key
/// maps to a producible character — the received-character event.
pub open spec fn spec_keyboard_events(event: crate::event::KeyboardEvent) -> Seq<DomainEvent> {
    let base = seq![
        DomainEvent::Keyboard { event },
        DomainEvent::KeyboardInput { input: event.spec_to_input() },
    ];
    if spec_producible_char(event.key@) is Some {
        base.push(spec_received_character(spec_producible_char(event.key@)->Some_0))
    } else {
        base
    }
}

/// The received-character event for `c`.
pub open spec fn spec_received_character(c: char) -> DomainEvent {
    DomainEvent::ReceivedCharacter { ch: c }
}

/// A keyboard event whose key maps to a producible character yields
/// three events, in order: the structured keyboard event, the
/// backend-shaped input event, the received character. One with no
/// mapped character yields only the first two.
pub proof fn lemma_keyboard_fanout(event: crate::event::KeyboardEvent)
    ensures
        spec_keyboard_events(event).len() == (if spec_producible_char(event.key@) is Some {
            3int
        } else {
            2int
        }),
        spec_keyboard_events(event)[0] == (DomainEvent::Keyboard { event }),
        spec_keyboard_events(event)[1] == (DomainEvent::KeyboardInput {
            input: event.spec_to_input(),
        }),
        spec_producible_char(event.key@) is Some ==> spec_keyboard_events(event)[2]
            == spec_received_character(spec_producible_char(event.key@)->Some_0),
{
}

/// What one native window event produced.
#[derive(Debug)]
pub struct NativeEventOutput {
    /// Domain events emitted toward the application, in order.
    pub emitted: Vec<DomainEvent>,
    /// Imperative operations the embedder must perform.
    pub actions: Vec<NativeAction>,
    /// Why the event was skipped, when it was.
    pub warning: Option<Warning>,
}

/// What one user event produced.
#[derive(Debug)]
pub struct UserEventOutput {
    /// Domain events emitted toward the application, in order.
    pub emitted: Vec<DomainEvent>,
    /// Imperative operations the embedder must perform.
    pub actions: Vec<NativeAction>,
    /// Why the event was dropped, when it was.
    pub warning: Option<Warning>,
}

/// What the end-of-events phase produced.
#[derive(Clone, Copy, Debug, PartialEq, Eq, Structural)]
pub struct MainPhaseOutput {
    /// The window the first pending open request created, when one did.
    pub created: Option<WindowId>,
    /// One warning per rejected open request.
    pub open_warnings: u64,
    /// Whether application state must be recomputed now; the embedder
    /// posts the coalesced notify and runs one recomputation pass.
    pub should_update: bool,
}

/// The run loop: the one owner of the window registry and the loop state.
///
/// Exactly one thread drives it; everything other threads want from the
/// loop arrives as a [`UserEvent`] over the bridge.
#[derive(Debug)]
pub struct RunLoop {
    pub registry: WindowRegistry,
    pub settings: UpdateModeSettings,
    pub state: LoopState,
    /// Set once an exit signal has been observed; one-way.
    pub terminated: bool,
}

impl RunLoop {
    pub open spec fn wf(self) -> bool {
        self.registry.wf()
    }

    /// The update mode the current focus snapshot selects.
    pub open spec fn spec_mode(self) -> UpdateMode {
        self.settings.spec_update_mode(self.registry.spec_any_focused())
    }

    /// A loop over an empty registry, constructed at startup.
    pub fn new(settings: UpdateModeSettings, now_ms: u64) -> (rl: RunLoop)
        ensures
            rl.wf(),
            rl.registry.primary is None,
            rl.settings == settings,
            rl.state == LoopState::spec_initial(now_ms),
            !rl.terminated,
    {
        RunLoop {
            registry: WindowRegistry::new(),
            settings,
            state: LoopState::initial(now_ms),
            terminated: false,
        }
    }

    /// Opens a tick: snapshots focus, clears the tick-local input flag,
    /// and records whether the max-wait elapsed — either because the
    /// backend woke on the deadline (`auto_timeout_reached`) or because
    /// the clock shows it.
    pub fn start_tick(&mut self, now_ms: u64, auto_timeout_reached: bool)
        requires
            old(self).wf(),
            !old(self).terminated,
            old(self).state.last_update_ms <= now_ms,
        ensures
            *final(self) == (RunLoop {
                state: spec_start_tick(
                    old(self).state,
                    old(self).spec_mode(),
                    now_ms,
                    auto_timeout_reached,
                ),
                ..*old(self)
            }),
    {
        let focused = self.registry.any_focused();
        let mode = self.settings.update_mode(focused);
        let manual = match mode {
            UpdateMode::Continuous => false,
            UpdateMode::Reactive { max_wait_ms } | UpdateMode::ReactiveLowPower { max_wait_ms } => {
                now_ms - self.state.last_update_ms >= max_wait_ms
            },
        };
        self.state.low_power_event = false;
        self.state.timeout_reached = auto_timeout_reached || manual;
    }

    /// Applies one native window event: resolves the window, mutates its
    /// state first, then reports the domain events that mutation owes —
    /// so any handler of those events reads already-consistent state.
    ///
    /// An event for a native window the registry cannot resolve is
    /// skipped with a warning — one that tells a window already closed
    /// from an identifier never known — and changes nothing; it does not
    /// even count as triggering input.
    pub fn handle_native_window_event(&mut self, native_id: u64, ev: NativeWindowEvent) -> (out:
        NativeEventOutput)
        requires
            old(self).wf(),
            !old(self).terminated,
            ev matches NativeWindowEvent::ScaleFactorChanged { scale_milli, .. } ==> 1
                <= scale_milli <= crate::window::MAX_SCALE_MILLI,
        ensures
            final(self).wf(),
            old(self).registry.spec_resolve(native_id) is None ==> *final(self) == *old(self)
                && out.warning == Some(
                (if old(self).registry.spec_was_closed(native_id) {
                    Warning::WindowClosed
                } else {
                    Warning::UnknownNativeWindow
                }),
            ) && out.emitted@.len() == 0 && out.actions@.len() == 0,
            old(self).registry.spec_resolve(native_id) is Some ==> {
                &&& out.warning is None
                &&& *final(self) == (RunLoop {
                    registry: spec_native_registry(old(self).registry, ev),
                    state: (LoopState { low_power_event: true, ..old(self).state }),
                    ..*old(self)
                })
                &&& out.emitted@ == spec_native_events(old(self).registry, ev)
                &&& out.actions@ == spec_native_actions(old(self).registry, ev)
            },
    {
        let id = match self.registry.resolve(native_id) {
            Some(id) => id,
            None => {
                let warning = if self.registry.was_closed(native_id) {
                    Warning::WindowClosed
                } else {
                    Warning::UnknownNativeWindow
                };
                return NativeEventOutput {
                    emitted: Vec::new(),
                    actions: Vec::new(),
                    warning: Some(warning),
                };
            },
        };
        self.state.low_power_event = true;
        let mut emitted: Vec<DomainEvent> = Vec::new();
        let mut actions: Vec<NativeAction> = Vec::new();
        let ghost reg0 = self.registry;
        match ev {
            NativeWindowEvent::Resized { width, height } => {
                match self.registry.apply_native_resize(id, width, height) {
                    Ok(Some(sz)) => {
                        emitted.push(
                            DomainEvent::WindowResized {
                                id,
                                width_milli: sz.0,
                                height_milli: sz.1,
                            },
                        );
                    },
                    Ok(None) => {},
                    Err(_) => {},
                }
                proof {
                    assert(emitted@ =~= spec_native_events(
                        reg0,
                        NativeWindowEvent::Resized { width, height },
                    ));
                }
            },
            NativeWindowEvent::Moved { x, y } => {
                match self.registry.apply_native_move(id, x, y) {
                    Ok(()) => {
                        emitted.push(DomainEvent::WindowMoved { id, x, y });
                    },
                    Err(_) => {},
                }
                proof {
                    assert(emitted@ =~= spec_native_events(
                        reg0,
                        NativeWindowEvent::Moved { x, y },
                    ));
                }
            },
            NativeWindowEvent::CloseRequested => {
                emitted.push(DomainEvent::WindowCloseRequested { id });
                proof {
                    assert(emitted@ =~= spec_native_events(reg0, NativeWindowEvent::CloseRequested));
                }
            },
            NativeWindowEvent::Focused { focused } => {
                match self.registry.apply_native_focus(id, focused) {
                    Ok(()) => {
                        emitted.push(DomainEvent::WindowFocused { id, focused });
                    },
                    Err(_) => {},
                }
                proof {
                    assert(emitted@ =~= spec_native_events(
                        reg0,
                        NativeWindowEvent::Focused { focused },
                    ));
                }
            },
            NativeWindowEvent::ScaleFactorChanged { scale_milli, inner_width, inner_height } => {
                match self.registry.apply_scale_factor(id, scale_milli, inner_width, inner_height) {
                    Ok(o) => {
                        emitted.push(
                            DomainEvent::WindowBackendScaleFactorChanged { id, scale_milli },
                        );
                        if o.rescaled {
                            emitted.push(
                                DomainEvent::WindowScaleFactorChanged { id, scale_milli },
                            );
                        }
                        match o.resized {
                            Some(sz) => {
                                emitted.push(
                                    DomainEvent::WindowResized {
                                        id,
                                        width_milli: sz.0,
                                        height_milli: sz.1,
                                    },
                                );
                            },
                            None => {},
                        }
                        if o.forced {
                            actions.push(
                                NativeAction::SetInnerSize {
                                    width: o.inner_width,
                                    height: o.inner_height,
                                },
                            );
                        }
                    },
                    Err(_) => {},
                }
                proof {
                    assert(emitted@ =~= spec_native_events(
                        reg0,
                        NativeWindowEvent::ScaleFactorChanged {
                            scale_milli,
                            inner_width,
                            inner_height,
                        },
                    ));
                    assert(actions@ =~= spec_native_actions(
                        reg0,
                        NativeWindowEvent::ScaleFactorChanged {
                            scale_milli,
                            inner_width,
                            inner_height,
                        },
                    ));
                }
            },
            NativeWindowEvent::DroppedFile { path } => {
                emitted.push(DomainEvent::FileDropped { id, path });
            },
            NativeWindowEvent::HoveredFile { path } => {
                emitted.push(DomainEvent::FileHovered { id, path });
            },
            NativeWindowEvent::HoveredFileCancelled => {
                emitted.push(DomainEvent::FileHoverCancelled { id });
            },
        }
        NativeEventOutput { emitted, actions, warning: None }
    }

    /// The native suspend signal: event processing pauses.
    pub fn set_suspended(&mut self)
        ensures
            *final(self) == (RunLoop {
                state: (LoopState { active: false, ..old(self).state }),
                ..*old(self)
            }),
    {
        self.state.active = false;
    }

    /// The native resume signal: event processing resumes.
    pub fn set_resumed(&mut self)
        ensures
            *final(self) == (RunLoop {
                state: (LoopState { active: true, ..old(self).state }),
                ..*old(self)
            }),
    {
        self.state.active = true;
    }

    /// Handles one window command.
    ///
    /// With a window present, the command mutates registry state, emits
    /// its domain events, demands its native actions — and queues exactly
    /// one redraw request, whatever the command was. With no window, the
    /// command is dropped with a warning and queues nothing.
    pub fn handle_window_command(&mut self, command: WindowCommand) -> (out: UserEventOutput)
        requires
            old(self).wf(),
            !old(self).terminated,
            old(self).state.redraws_this_tick < u64::MAX,
        ensures
            final(self).wf(),
            old(self).registry.primary is None ==> *final(self) == *old(self) && out.warning
                == Some(Warning::NoWindowForCommand) && out.emitted@.len() == 0
                && out.actions@.len() == 0,
            old(self).registry.primary is Some ==> {
                &&& out.warning is None
                &&& *final(self) == (RunLoop {
                    registry: spec_command_registry(old(self).registry, command),
                    state: (LoopState {
                        redraws_this_tick: (old(self).state.redraws_this_tick + 1) as u64,
                        ..old(self).state
                    }),
                    ..*old(self)
                })
                &&& out.emitted@ == spec_command_events(old(self).registry, command)
                &&& out.actions@ == spec_command_actions(old(self).registry, command)
            },
    {
        let pid = match self.registry.primary_id() {
            Some(pid) => pid,
            None => {
                return UserEventOutput {
                    emitted: Vec::new(),
                    actions: Vec::new(),
                    warning: Some(Warning::NoWindowForCommand),
                };
            },
        };
        let mut emitted: Vec<DomainEvent> = Vec::new();
        let mut actions: Vec<NativeAction> = Vec::new();
        match command {
            WindowCommand::Update => {
                actions.push(NativeAction::Rerender);
            },
            WindowCommand::Close => {
                emitted.push(DomainEvent::WindowCloseRequested { id: pid });
            },
            WindowCommand::Drag => {
                let windowed = match self.registry.get(pid) {
                    Some(s) => matches!(s.mode, WindowMode::Windowed),
                    None => false,
                };
                if windowed {
                    actions.push(NativeAction::Drag);
                }
            },
            WindowCommand::Visible { visible } => {
                actions.push(NativeAction::SetVisible { visible });
            },
            WindowCommand::Minimize { minimized } => {
                let _ = self.registry.set_minimized(minimized);
                actions.push(NativeAction::SetMinimized { minimized });
            },
            WindowCommand::Maximize { maximized } => {
                let _ = self.registry.set_maximized(maximized);
                actions.push(NativeAction::SetMaximized { maximized });
            },
            WindowCommand::MaximizeToggle => {
                match self.registry.toggle_maximized() {
                    Ok(maximized) => {
                        actions.push(NativeAction::SetMaximized { maximized });
                    },
                    Err(_) => {},
                }
            },
            WindowCommand::FullscreenToggle => {
                match self.registry.toggle_fullscreen() {
                    Ok(mode) => {
                        actions.push(
                            NativeAction::SetFullscreen {
                                fullscreen: matches!(mode, WindowMode::Fullscreen),
                            },
                        );
                    },
                    Err(_) => {},
                }
            },
            WindowCommand::Focus => {
                let _ = self.registry.focus_primary();
                emitted.push(DomainEvent::WindowFocused { id: pid, focused: true });
            },
            WindowCommand::Resizable { resizable } => {
                let _ = self.registry.set_resizable(resizable);
                actions.push(NativeAction::SetResizable { resizable });
            },
            WindowCommand::AlwaysOnTop { always_on_top } => {
                actions.push(NativeAction::SetAlwaysOnTop { always_on_top });
            },
            WindowCommand::CursorVisible { visible } => {
                actions.push(NativeAction::SetCursorVisible { visible });
            },
            WindowCommand::CursorGrab { grab } => {
                actions.push(NativeAction::SetCursorGrab { grab });
            },
            WindowCommand::SetTitle { title } => {
                actions.push(NativeAction::SetTitle { title });
            },
            WindowCommand::SetDecorations { decorations } => {
                actions.push(NativeAction::SetDecorations { decorations });
            },
            WindowCommand::SetZoomLevel { zoom_milli } => {
                actions.push(NativeAction::SetZoomLevel { zoom_milli });
            },
            WindowCommand::Print => {
                actions.push(NativeAction::Print);
            },
            WindowCommand::DevTools => {
                actions.push(NativeAction::OpenDevTools);
            },
            WindowCommand::Eval { script } => {
                actions.push(NativeAction::EvalScript { script });
            },
        }
        self.state.redraws_this_tick = self.state.redraws_this_tick + 1;
        UserEventOutput { emitted, actions, warning: None }
    }

    /// Handles one event drained from the bridge.
    ///
    /// Window commands go through [`RunLoop::handle_window_command`];
    /// domain commands and task results are forwarded verbatim; an
    /// injected keyboard event fans out into its two or three synthesized
    /// events — see [`spec_keyboard_events`] — and queues one redraw.
    pub fn handle_user_event(&mut self, ev: UserEvent) -> (out: UserEventOutput)
        requires
            old(self).wf(),
            !old(self).terminated,
            old(self).state.redraws_this_tick < u64::MAX,
        ensures
            final(self).wf(),
            ev matches UserEvent::WindowCommand { command } ==> {
                &&& (old(self).registry.primary is None ==> *final(self) == *old(self)
                    && out.warning == Some(Warning::NoWindowForCommand) && out.emitted@.len() == 0
                    && out.actions@.len() == 0)
                &&& (old(self).registry.primary is Some ==> {
                    &&& out.warning is None
                    &&& *final(self) == (RunLoop {
                        registry: spec_command_registry(old(self).registry, command),
                        state: (LoopState {
                            redraws_this_tick: (old(self).state.redraws_this_tick + 1) as u64,
                            ..old(self).state
                        }),
                        ..*old(self)
                    })
                    &&& out.emitted@ == spec_command_events(old(self).registry, command)
                    &&& out.actions@ == spec_command_actions(old(self).registry, command)
                })
            },
            ev matches UserEvent::DomainCommand { payload } ==> *final(self) == *old(self)
                && out.warning is None && out.actions@.len() == 0 && out.emitted@ == seq![
                DomainEvent::DomainCommand { payload },
            ],
            ev matches UserEvent::AsyncResult { result } ==> *final(self) == *old(self)
                && out.warning is None && out.actions@.len() == 0 && out.emitted@ == seq![
                DomainEvent::AsyncResult { result },
            ],
            ev matches UserEvent::Keyboard { event } ==> {
                &&& out.warning is None
                &&& out.actions@.len() == 0
                &&& *final(self) == (RunLoop {
                    state: (LoopState {
                        redraws_this_tick: (old(self).state.redraws_this_tick + 1) as u64,
                        ..old(self).state
                    }),
                    ..*old(self)
                })
                &&& out.emitted@ == spec_keyboard_events(event)
            },
    {
        match ev {
            UserEvent::WindowCommand { command } => self.handle_window_command(command),
            UserEvent::DomainCommand { payload } => {
                let mut emitted: Vec<DomainEvent> = Vec::new();
                emitted.push(DomainEvent::DomainCommand { payload });
                UserEventOutput { emitted, actions: Vec::new(), warning: None }
            },
            UserEvent::AsyncResult { result } => {
                let mut emitted: Vec<DomainEvent> = Vec::new();
                emitted.push(DomainEvent::AsyncResult { result });
                UserEventOutput { emitted, actions: Vec::new(), warning: None }
            },
            UserEvent::Keyboard { event } => {
                let input = event.to_input();
                let ch = event.try_to_char();
                let mut emitted: Vec<DomainEvent> = Vec::new();
                let ghost kev = event;
                emitted.push(DomainEvent::Keyboard { event });
                emitted.push(DomainEvent::KeyboardInput { input });
                match ch {
                    Some(c) => {
                        emitted.push(DomainEvent::ReceivedCharacter { ch: c });
                    },
                    None => {},
                }
                self.state.redraws_this_tick = self.state.redraws_this_tick + 1;
                proof {
                    assert(emitted@ =~= spec_keyboard_events(kev));
                }
                UserEventOutput { emitted, actions: Vec::new(), warning: None }
            },
        }
    }

    /// Queues one redraw request; the application's own systems use this
    /// beside the one the loop queues per handled window command.
    pub fn request_redraw(&mut self)
        requires
            old(self).state.redraws_this_tick < u64::MAX,
        ensures
            *final(self) == (RunLoop {
                state: (LoopState {
                    redraws_this_tick: (old(self).state.redraws_this_tick + 1) as u64,
                    ..old(self).state
                }),
                ..*old(self)
            }),
    {
        self.state.redraws_this_tick = self.state.redraws_this_tick + 1;
    }

    /// Ends the event phase of a tick: processes pending window-open
    /// requests — the first may open the primary, the rest are rejected
    /// with one warning each — then decides from the focus snapshot,
    /// the mode and the tick's flags whether application state is
    /// recomputed now. When it is, the last-update stamp moves to `now`,
    /// and the embedder posts the coalesced notify and runs exactly one
    /// recomputation pass.
    pub fn main_events_cleared(
        &mut self,
        now_ms: u64,
        open_requests: &Vec<OpenWindowRequest>,
    ) -> (out: MainPhaseOutput)
        requires
            old(self).wf(),
            !old(self).terminated,
            forall|i: int|
                0 <= i < open_requests@.len() ==> (
                #[trigger] open_requests@[i]).descriptor.wf(),
        ensures
            final(self).wf(),
            final(self).registry == old(self).registry.spec_after_open(open_requests@),
            out.created == old(self).registry.spec_open_outcome(open_requests@).created,
            out.open_warnings == old(self).registry.spec_open_outcome(open_requests@).warnings,
            out.should_update == spec_should_update(
                old(self).state,
                old(self).settings.spec_update_mode(
                    old(self).registry.spec_after_open(open_requests@).spec_any_focused(),
                ),
            ),
            final(self).state == (LoopState {
                last_update_ms: if out.should_update {
                    now_ms
                } else {
                    old(self).state.last_update_ms
                },
                ..old(self).state
            }),
            final(self).settings == old(self).settings,
            final(self).terminated == old(self).terminated,
    {
        let open_out = self.registry.process_open_requests(open_requests);
        let focused = self.registry.any_focused();
        let mode = self.settings.update_mode(focused);
        let update = self.state.active && (match mode {
            UpdateMode::Continuous => true,
            UpdateMode::Reactive { .. } | UpdateMode::ReactiveLowPower { .. } => {
                self.state.low_power_event || self.state.redraw_request_sent
                    || self.state.timeout_reached
            },
        });
        if update {
            self.state.last_update_ms = now_ms;
        }
        MainPhaseOutput {
            created: open_out.created,
            open_warnings: open_out.warnings,
            should_update: update,
        }
    }

    /// Closes a tick: computes the control directive from the mode, the
    /// redraws this tick queued, and whether an exit signal was observed;
    /// then rolls the redraw count into the flag the next tick reads.
    /// Termination is one-way: after an exit the loop takes no further
    /// tick.
    pub fn finish_tick(&mut self, exit_seen: bool) -> (d: ControlDirective)
        requires
            old(self).wf(),
            !old(self).terminated,
        ensures
            d == spec_control_directive(
                old(self).spec_mode(),
                old(self).state.last_update_ms,
                old(self).state.redraws_this_tick > 0,
                exit_seen,
            ),
            *final(self) == (RunLoop {
                state: (LoopState {
                    redraw_request_sent: old(self).state.redraws_this_tick > 0,
                    redraws_this_tick: 0,
                    ..old(self).state
                }),
                terminated: exit_seen,
                ..*old(self)
            }),
    {
        let focused = self.registry.any_focused();
        let mode = self.settings.update_mode(focused);
        let redraw_seen = self.state.redraws_this_tick > 0;
        let d = if exit_seen {
            self.terminated = true;
            ControlDirective::Terminate
        } else if redraw_seen {
            ControlDirective::PollImmediately
        } else {
            match mode {
                UpdateMode::Continuous => ControlDirective::PollImmediately,
                UpdateMode::Reactive { max_wait_ms } | UpdateMode::ReactiveLowPower {
                    max_wait_ms,
                } => ControlDirective::WaitUntil {
                    deadline_ms: self.state.last_update_ms.saturating_add(max_wait_ms),
                },
            }
        };
        self.state.redraw_request_sent = redraw_seen;
        self.state.redraws_this_tick = 0;
        d
    }
}

/// The domain event one raw pointer-motion report becomes; forwarded
/// whatever the focus state, in millipixels.
pub fn make_mouse_motion(delta_x_milli: i64, delta_y_milli: i64) -> (e: DomainEvent)
    ensures
        e == (DomainEvent::MouseMotion { delta_x_milli, delta_y_milli }),
{
    DomainEvent::MouseMotion { delta_x_milli, delta_y_milli }
}

/// The loop's per-tick update decision is the policy's: for a tick whose
/// timeout flag was computed from the clock at tick start — no backend
/// deadline wake — an active loop recomputes exactly when [`decide`]
/// says to, taking as triggering input what the tick saw: native window
/// input or a redraw requested last tick.
///
/// [`decide`]: crate::policy::decide
pub proof fn lemma_loop_follows_policy(st: LoopState, mode: UpdateMode, now_ms: u64)
    requires
        st.last_update_ms <= now_ms,
        st.timeout_reached == spec_manual_timeout(mode, now_ms, st.last_update_ms),
    ensures
        spec_should_update(st, mode) == (st.active && crate::policy::spec_decide(
            mode,
            now_ms,
            st.last_update_ms,
            st.low_power_event || st.redraw_request_sent,
        ).should_update),
{
}

/// Under `Continuous`, and absent an exit signal, every tick ends in "run
/// again immediately" — never a sleep deadline — whatever the tick saw.
pub proof fn lemma_continuous_never_sleeps(last_update_ms: u64, redraw_seen: bool)
    ensures
        spec_control_directive(UpdateMode::Continuous, last_update_ms, redraw_seen, false)
            == ControlDirective::PollImmediately,
{
}

/// Once an exit signal is observed in a tick, the directive is to
/// terminate, whatever the mode, any pending redraw, and any deadline.
pub proof fn lemma_exit_terminates(
    mode: UpdateMode,
    last_update_ms: u64,
    redraw_seen: bool,
)
    ensures
        spec_control_directive(mode, last_update_ms, redraw_seen, true)
            == ControlDirective::Terminate,
{
}

/// Under `Reactive` with no triggering input, the tick still decides to
/// update once the max-wait has elapsed: a tick that opens after
/// `last_update + max_wait`, with zero native events and no redraw
/// pending, sees `should_update` true.
pub proof fn lemma_reactive_timeout_updates(
    st: LoopState,
    max_wait_ms: u64,
    now_ms: u64,
)
    requires
        st.active,
        now_ms >= st.last_update_ms,
        now_ms - st.last_update_ms >= max_wait_ms,
    ensures
        spec_should_update(
            spec_start_tick(st, UpdateMode::Reactive { max_wait_ms }, now_ms, false),
            UpdateMode::Reactive { max_wait_ms },
        ),
{
}

} // verus!
