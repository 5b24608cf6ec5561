//! The window registry: owner of all per-window state.
//!
//! The registry resolves native window identifiers to logical ones,
//! holds each window's [`WindowState`], and applies the mutations that
//! native events and window commands ask for. It owns at most one
//! window — the primary — because the whole loop is specified for
//! exactly one; a request to open a second window is rejected with a
//! warning and changes nothing.

use vstd::prelude::*;

use crate::event::Warning;
use crate::window::{WindowDescriptor, WindowId, WindowMode, WindowState, spec_primary_id};

verus! {

/// An operation named a window the registry does not have.
#[derive(Clone, Copy, Debug, PartialEq, Eq, Structural)]
pub enum RegistryError {
    NoSuchWindow,
}

/// A pending request to open a window.
#[derive(Clone, Copy, Debug)]
pub struct OpenWindowRequest {
    /// The native identifier the backend will know the window by.
    pub native_id: u64,
    pub descriptor: WindowDescriptor,
}

/// The one window the registry owns, with both of its identities.
#[derive(Clone, Copy, Debug)]
pub struct PrimaryWindow {
    pub id: WindowId,
    /// The identifier the native window system uses for this window.
    pub native_id: u64,
    pub state: WindowState,
}

/// What processing a batch of open requests produced.
#[derive(Clone, Copy, Debug, PartialEq, Eq, Structural)]
pub struct OpenOutcome {
    /// The window the first request opened, when the registry was empty.
    pub created: Option<WindowId>,
    /// One warning per rejected request.
    pub warnings: u64,
}

/// Holds the windows the loop knows; at most the primary.
#[derive(Clone, Debug)]
pub struct WindowRegistry {
    pub primary: Option<PrimaryWindow>,
    /// Native identifiers of windows that existed and were closed, so a
    /// late event for one can be told from an identifier never known.
    pub closed_native_ids: Vec<u64>,
}

impl WindowRegistry {
    pub open spec fn wf(self) -> bool {
        self.primary matches Some(p) ==> p.state.wf() && p.id == spec_primary_id()
    }

    /// How many windows exist: zero or one.
    pub open spec fn spec_count(self) -> nat {
        if self.primary is Some {
            1
        } else {
            0
        }
    }

    /// Whether `id` names a window the registry has.
    pub open spec fn spec_has(self, id: WindowId) -> bool {
        self.primary matches Some(p) && p.id == id
    }

    /// The state of the window `id` names.
    pub open spec fn spec_state(self, id: WindowId) -> WindowState
        recommends
            self.spec_has(id),
    {
        self.primary->Some_0.state
    }

    /// The registry with the primary window's state replaced.
    pub open spec fn spec_with_state(self, s: WindowState) -> WindowRegistry
        recommends
            self.primary is Some,
    {
        WindowRegistry {
            primary: Some(PrimaryWindow { state: s, ..self.primary->Some_0 }),
            ..self
        }
    }

    /// Whether `native_id` belonged to a window that was closed.
    pub open spec fn spec_was_closed(self, native_id: u64) -> bool {
        self.closed_native_ids@.contains(native_id)
    }

    /// The logical identifier behind a native one, if known.
    pub open spec fn spec_resolve(self, native_id: u64) -> Option<WindowId> {
        match self.primary {
            Some(p) => if p.native_id == native_id {
                Some(p.id)
            } else {
                None
            },
            None => None,
        }
    }

    /// Whether any window is focused.
    pub open spec fn spec_any_focused(self) -> bool {
        self.primary matches Some(p) && p.state.focused
    }

    /// A registry with no window and nothing yet closed.
    pub fn new() -> (reg: WindowRegistry)
        ensures
            reg.primary is None,
            reg.closed_native_ids@.len() == 0,
            reg.wf(),
    {
        WindowRegistry { primary: None, closed_native_ids: Vec::new() }
    }

    /// Whether `native_id` belonged to a window that has been closed.
    pub fn was_closed(&self, native_id: u64) -> (b: bool)
        ensures
            b == self.spec_was_closed(native_id),
    {
        let n = self.closed_native_ids.len();
        let mut i: usize = 0;
        while i < n
            invariant
                i <= n,
                n == self.closed_native_ids@.len(),
                forall|j: int| 0 <= j < i ==> self.closed_native_ids@[j] != native_id,
            decreases n - i,
        {
            if self.closed_native_ids[i] == native_id {
                proof {
                    assert(self.closed_native_ids@[i as int] == native_id);
                }
                return true;
            }
            i = i + 1;
        }
        false
    }

    /// Closes the primary window: it leaves the registry, and its native
    /// identifier is remembered so a late event for it is recognized as
    /// belonging to a closed window.
    pub fn close_primary(&mut self) -> (r: Result<WindowId, RegistryError>)
        requires
            old(self).wf(),
        ensures
            final(self).wf(),
            old(self).primary is None ==> r is Err && *final(self) == *old(self),
            old(self).primary matches Some(p) ==> {
                &&& r == Ok::<WindowId, RegistryError>(p.id)
                &&& final(self).primary is None
                &&& final(self).closed_native_ids@ == old(self).closed_native_ids@.push(
                    p.native_id,
                )
            },
    {
        let prev = self.primary.take();
        match prev {
            Some(p) => {
                self.closed_native_ids.push(p.native_id);
                Ok(p.id)
            },
            None => Err(RegistryError::NoSuchWindow),
        }
    }

    pub fn count(&self) -> (n: usize)
        ensures
            n == self.spec_count(),
    {
        match &self.primary {
            Some(_) => 1,
            None => 0,
        }
    }

    /// The logical identifier of the window the native system calls
    /// `native_id`, if the registry knows it.
    pub fn resolve(&self, native_id: u64) -> (r: Option<WindowId>)
        ensures
            r == self.spec_resolve(native_id),
    {
        match &self.primary {
            Some(p) if p.native_id == native_id => Some(p.id),
            _ => None,
        }
    }

    /// The identifier of the primary window, if one exists.
    pub fn primary_id(&self) -> (r: Option<WindowId>)
        ensures
            r == (match self.primary {
                Some(p) => Some(p.id),
                None => None::<WindowId>,
            }),
    {
        match &self.primary {
            Some(p) => Some(p.id),
            None => None,
        }
    }

    /// The state of the window `id` names, if the registry has it.
    pub fn get(&self, id: WindowId) -> (r: Option<&WindowState>)
        ensures
            r matches Some(s) ==> self.spec_has(id) && *s == self.spec_state(id),
            r is None ==> !self.spec_has(id),
    {
        match &self.primary {
            Some(p) if p.id.raw == id.raw => Some(&p.state),
            _ => None,
        }
    }

    /// Whether any window is focused; the per-tick focus snapshot.
    pub fn any_focused(&self) -> (f: bool)
        ensures
            f == self.spec_any_focused(),
    {
        match &self.primary {
            Some(p) => p.state.focused,
            None => false,
        }
    }

    /// Opens the window `req` asks for, or rejects the request when a
    /// window already exists: multiple windows are unsupported, so the
    /// registry warns once and stays exactly as it was.
    pub fn open_window(&mut self, req: OpenWindowRequest) -> (r: Result<WindowId, Warning>)
        requires
            old(self).wf(),
            req.descriptor.wf(),
        ensures
            final(self).wf(),
            old(self).primary is None ==> {
                &&& r == Ok::<WindowId, Warning>(spec_primary_id())
                &&& *final(self) == (WindowRegistry {
                    primary: Some(
                        PrimaryWindow {
                            id: spec_primary_id(),
                            native_id: req.native_id,
                            state: WindowState::spec_from_descriptor(req.descriptor),
                        },
                    ),
                    ..*old(self)
                })
            },
            old(self).primary is Some ==> {
                &&& r == Err::<WindowId, Warning>(Warning::MultipleWindowsUnsupported)
                &&& *final(self) == *old(self)
            },
    {
        match &self.primary {
            Some(_) => Err(Warning::MultipleWindowsUnsupported),
            None => {
                let id = WindowId::primary();
                let state = WindowState::from_descriptor(req.descriptor);
                self.primary = Some(PrimaryWindow { id, native_id: req.native_id, state });
                Ok(id)
            },
        }
    }

    /// The registry after a batch of open requests: the first request may
    /// open the primary when none exists; every other request changes
    /// nothing.
    pub open spec fn spec_after_open(self, reqs: Seq<OpenWindowRequest>) -> WindowRegistry {
        if self.primary is None && reqs.len() > 0 {
            WindowRegistry {
                primary: Some(
                    PrimaryWindow {
                        id: spec_primary_id(),
                        native_id: reqs[0].native_id,
                        state: WindowState::spec_from_descriptor(reqs[0].descriptor),
                    },
                ),
                ..self
            }
        } else {
            self
        }
    }

    /// What the batch reports back: the window created, if one was, and
    /// one warning per rejected request.
    pub open spec fn spec_open_outcome(self, reqs: Seq<OpenWindowRequest>) -> OpenOutcome {
        if self.primary is Some {
            OpenOutcome { created: None, warnings: reqs.len() as u64 }
        } else if reqs.len() == 0 {
            OpenOutcome { created: None, warnings: 0 }
        } else {
            OpenOutcome { created: Some(spec_primary_id()), warnings: (reqs.len() - 1) as u64 }
        }
    }

    /// Processes the tick's pending open requests in order: the first may
    /// open the primary window if none exists; every further one is
    /// rejected with exactly one warning each and no state change.
    pub fn process_open_requests(&mut self, reqs: &Vec<OpenWindowRequest>) -> (out: OpenOutcome)
        requires
            old(self).wf(),
            forall|i: int| 0 <= i < reqs@.len() ==> (#[trigger] reqs@[i]).descriptor.wf(),
        ensures
            final(self).wf(),
            *final(self) == old(self).spec_after_open(reqs@),
            out == old(self).spec_open_outcome(reqs@),
    {
        let mut created: Option<WindowId> = None;
        let mut warnings: u64 = 0;
        let n = reqs.len();
        let mut i: usize = 0;
        while i < n
            invariant
                n == reqs@.len(),
                i <= n,
                self.wf(),
                forall|j: int| 0 <= j < n ==> (#[trigger] reqs@[j]).descriptor.wf(),
                warnings <= i,
                old(self).primary is Some ==> *self == *old(self) && created is None && warnings
                    == i,
                old(self).primary is None && i == 0 ==> *self == *old(self) && created is None
                    && warnings == 0,
                old(self).primary is None && i > 0 ==> {
                    &&& created == Some(spec_primary_id())
                    &&& warnings == i - 1
                    &&& *self == (WindowRegistry {
                        primary: Some(
                            PrimaryWindow {
                                id: spec_primary_id(),
                                native_id: reqs@[0].native_id,
                                state: WindowState::spec_from_descriptor(reqs@[0].descriptor),
                            },
                        ),
                        ..*old(self)
                    })
                },
            decreases n - i,
        {
            match self.open_window(reqs[i]) {
                Ok(id) => {
                    created = Some(id);
                },
                Err(_) => {
                    warnings = warnings + 1;
                },
            }
            i = i + 1;
        }
        OpenOutcome { created, warnings }
    }

    /// Applies a backend-reported resize to the window `id` names; see
    /// [`WindowState::apply_resize`] for the emission rule.
    pub fn apply_native_resize(&mut self, id: WindowId, w: u32, h: u32) -> (r: Result<
        Option<(u64, u64)>,
        RegistryError,
    >)
        requires
            old(self).wf(),
        ensures
            final(self).wf(),
            !old(self).spec_has(id) ==> r == Err::<Option<(u64, u64)>, RegistryError>(
                RegistryError::NoSuchWindow,
            ) && *final(self) == *old(self),
            old(self).spec_has(id) ==> {
                &&& *final(self) == old(self).spec_with_state(
                    (WindowState {
                        physical_width: w,
                        physical_height: h,
                        ..old(self).spec_state(id)
                    }),
                )
                &&& r matches Ok(emitted)
                &&& (emitted matches Some(sz) ==> old(self).spec_state(id).spec_resize_emits(w, h)
                    && sz.0 == final(self).spec_state(id).spec_logical_width_milli() && sz.1
                    == final(self).spec_state(id).spec_logical_height_milli())
                &&& (emitted is None ==> !old(self).spec_state(id).spec_resize_emits(w, h))
            },
    {
        match &mut self.primary {
            Some(p) => {
                if p.id.raw == id.raw {
                    Ok(p.state.apply_resize(w, h))
                } else {
                    Err(RegistryError::NoSuchWindow)
                }
            },
            None => Err(RegistryError::NoSuchWindow),
        }
    }

    /// Applies a backend-reported move to the window `id` names.
    pub fn apply_native_move(&mut self, id: WindowId, x: i32, y: i32) -> (r: Result<
        (),
        RegistryError,
    >)
        requires
            old(self).wf(),
        ensures
            final(self).wf(),
            !old(self).spec_has(id) ==> r is Err && *final(self) == *old(self),
            old(self).spec_has(id) ==> r is Ok && *final(self) == old(self).spec_with_state(
                (WindowState { position_x: x, position_y: y, ..old(self).spec_state(id) }),
            ),
    {
        match &mut self.primary {
            Some(p) => {
                if p.id.raw == id.raw {
                    p.state.apply_move(x, y);
                    Ok(())
                } else {
                    Err(RegistryError::NoSuchWindow)
                }
            },
            None => Err(RegistryError::NoSuchWindow),
        }
    }

    /// Applies a backend-reported focus change to the window `id` names.
    pub fn apply_native_focus(&mut self, id: WindowId, focused: bool) -> (r: Result<
        (),
        RegistryError,
    >)
        requires
            old(self).wf(),
        ensures
            final(self).wf(),
            !old(self).spec_has(id) ==> r is Err && *final(self) == *old(self),
            old(self).spec_has(id) ==> r is Ok && *final(self) == old(self).spec_with_state(
                (WindowState { focused, ..old(self).spec_state(id) }),
            ),
    {
        match &mut self.primary {
            Some(p) => {
                if p.id.raw == id.raw {
                    p.state.apply_focus(focused);
                    Ok(())
                } else {
                    Err(RegistryError::NoSuchWindow)
                }
            },
            None => Err(RegistryError::NoSuchWindow),
        }
    }

    /// Applies a backend-reported scale-factor change to the window `id`
    /// names; see [`WindowState::apply_scale_factor`] for what is forced,
    /// emitted and stored.
    pub fn apply_scale_factor(
        &mut self,
        id: WindowId,
        scale_milli: u32,
        inner_w: u32,
        inner_h: u32,
    ) -> (r: Result<crate::window::ScaleChange, RegistryError>)
        requires
            old(self).wf(),
            1 <= scale_milli <= crate::window::MAX_SCALE_MILLI,
        ensures
            final(self).wf(),
            !old(self).spec_has(id) ==> r is Err && *final(self) == *old(self),
            old(self).spec_has(id) ==> {
                &&& r == Ok::<crate::window::ScaleChange, RegistryError>(
                    old(self).spec_state(id).spec_scale_outcome(scale_milli, inner_w, inner_h),
                )
                &&& *final(self) == old(self).spec_with_state(
                    old(self).spec_state(id).spec_state_after_scale(scale_milli, inner_w, inner_h),
                )
            },
    {
        match &mut self.primary {
            Some(p) => {
                if p.id.raw == id.raw {
                    Ok(p.state.apply_scale_factor(scale_milli, inner_w, inner_h))
                } else {
                    Err(RegistryError::NoSuchWindow)
                }
            },
            None => Err(RegistryError::NoSuchWindow),
        }
    }

    /// Sets the primary window's minimized flag.
    pub fn set_minimized(&mut self, minimized: bool) -> (r: Result<(), RegistryError>)
        requires
            old(self).wf(),
        ensures
            final(self).wf(),
            old(self).primary is None ==> r is Err && *final(self) == *old(self),
            old(self).primary is Some ==> r is Ok && *final(self) == old(self).spec_with_state(
                (WindowState { minimized, ..old(self).primary->Some_0.state }),
            ),
    {
        match &mut self.primary {
            Some(p) => {
                p.state.minimized = minimized;
                Ok(())
            },
            None => Err(RegistryError::NoSuchWindow),
        }
    }

    /// Sets the primary window's maximized flag.
    pub fn set_maximized(&mut self, maximized: bool) -> (r: Result<(), RegistryError>)
        requires
            old(self).wf(),
        ensures
            final(self).wf(),
            old(self).primary is None ==> r is Err && *final(self) == *old(self),
            old(self).primary is Some ==> r is Ok && *final(self) == old(self).spec_with_state(
                (WindowState { maximized, ..old(self).primary->Some_0.state }),
            ),
    {
        match &mut self.primary {
            Some(p) => {
                p.state.maximized = maximized;
                Ok(())
            },
            None => Err(RegistryError::NoSuchWindow),
        }
    }

    /// Flips the primary window's maximized flag and reports the new value.
    pub fn toggle_maximized(&mut self) -> (r: Result<bool, RegistryError>)
        requires
            old(self).wf(),
        ensures
            final(self).wf(),
            old(self).primary is None ==> r is Err && *final(self) == *old(self),
            old(self).primary is Some ==> {
                &&& r == Ok::<bool, RegistryError>(!old(self).primary->Some_0.state.maximized)
                &&& *final(self) == old(self).spec_with_state(
                    (WindowState {
                        maximized: !old(self).primary->Some_0.state.maximized,
                        ..old(self).primary->Some_0.state
                    }),
                )
            },
    {
        match &mut self.primary {
            Some(p) => {
                let new_value = !p.state.maximized;
                p.state.maximized = new_value;
                Ok(new_value)
            },
            None => Err(RegistryError::NoSuchWindow),
        }
    }

    /// Flips the primary window between windowed and fullscreen and reports
    /// the mode it now has.
    pub fn toggle_fullscreen(&mut self) -> (r: Result<WindowMode, RegistryError>)
        requires
            old(self).wf(),
        ensures
            final(self).wf(),
            old(self).primary is None ==> r is Err && *final(self) == *old(self),
            old(self).primary is Some ==> {
                &&& r == Ok::<WindowMode, RegistryError>(
                    (if old(self).primary->Some_0.state.mode is Windowed {
                        WindowMode::Fullscreen
                    } else {
                        WindowMode::Windowed
                    }),
                )
                &&& *final(self) == old(self).spec_with_state(
                    (WindowState {
                        mode: (if old(self).primary->Some_0.state.mode is Windowed {
                            WindowMode::Fullscreen
                        } else {
                            WindowMode::Windowed
                        }),
                        ..old(self).primary->Some_0.state
                    }),
                )
            },
    {
        match &mut self.primary {
            Some(p) => {
                let new_mode = match p.state.mode {
                    WindowMode::Windowed => WindowMode::Fullscreen,
                    WindowMode::Fullscreen => WindowMode::Windowed,
                };
                p.state.mode = new_mode;
                Ok(new_mode)
            },
            None => Err(RegistryError::NoSuchWindow),
        }
    }

    /// Sets the primary window's resizable flag.
    pub fn set_resizable(&mut self, resizable: bool) -> (r: Result<(), RegistryError>)
        requires
            old(self).wf(),
        ensures
            final(self).wf(),
            old(self).primary is None ==> r is Err && *final(self) == *old(self),
            old(self).primary is Some ==> r is Ok && *final(self) == old(self).spec_with_state(
                (WindowState { resizable, ..old(self).primary->Some_0.state }),
            ),
    {
        match &mut self.primary {
            Some(p) => {
                p.state.resizable = resizable;
                Ok(())
            },
            None => Err(RegistryError::NoSuchWindow),
        }
    }

    /// Marks the primary window focused, as the focus command asks.
    pub fn focus_primary(&mut self) -> (r: Result<WindowId, RegistryError>)
        requires
            old(self).wf(),
        ensures
            final(self).wf(),
            old(self).primary is None ==> r is Err && *final(self) == *old(self),
            old(self).primary is Some ==> {
                &&& r == Ok::<WindowId, RegistryError>(old(self).primary->Some_0.id)
                &&& *final(self) == old(self).spec_with_state(
                    (WindowState { focused: true, ..old(self).primary->Some_0.state }),
                )
            },
    {
        match &mut self.primary {
            Some(p) => {
                p.state.focused = true;
                Ok(p.id)
            },
            None => Err(RegistryError::NoSuchWindow),
        }
    }
}

/// A window-open request that arrives while a window already exists is a
/// no-op with a diagnostic: the registry — and so the window count — is
/// unchanged, and exactly one warning is produced for the one request.
pub proof fn lemma_second_open_rejected(reg: WindowRegistry, req: OpenWindowRequest)
    requires
        reg.primary is Some,
    ensures
        reg.spec_after_open(seq![req]) == reg,
        reg.spec_after_open(seq![req]).spec_count() == reg.spec_count(),
        reg.spec_count() == 1,
        reg.spec_open_outcome(seq![req]).warnings == 1,
        reg.spec_open_outcome(seq![req]).created is None,
{
    assert(seq![req].len() == 1);
}

} // verus!
