use crate::drag_drop::modifiers::{Key, Modifier, ModifierState};
use vstd::prelude::*;

verus! {

/// A window of the desktop, by the number its owner knows it by. The window
/// itself is never held here.
#[derive(Debug, Clone, Copy, PartialEq, Eq, Structural)]
pub struct WindowHandle {
    pub id: u64,
}

/// A position of the pointer, in pixels of the global desktop space.
#[derive(Debug, Clone, Copy, PartialEq, Eq, Structural)]
pub struct Pointer {
    pub x: i32,
    pub y: i32,
}

/// An input event, as every platform reports it.
#[derive(Debug, Clone, Copy, PartialEq, Eq, Structural)]
pub enum RawInputEvent {
    ButtonDown,
    ButtonUp,
    Move { x: i32, y: i32 },
    KeyDown { key: Key },
    KeyUp { key: Key },
}

/// One drag: from the button going down over a window to the button going
/// up. The pointer's last position is known whether or not a drag is under
/// way, so that a window can be released where the pointer is even if the
/// pointer did not move during the drag.
#[derive(Debug, Clone, Copy, PartialEq, Eq, Structural)]
pub struct DragSession {
    pub active: bool,
    pub tracked_window: Option<WindowHandle>,
    pub modifier_seen_during_drag: bool,
    pub overlay_visible: bool,
    pub last_pointer: Pointer,
}

/// Everything the event pump owns: the modifier keys and the one drag
/// session.
#[derive(Debug, Clone, Copy, PartialEq, Eq, Structural)]
pub struct DragEngine {
    pub modifiers: ModifierState,
    pub session: DragSession,
}

/// What the caller found around an event: the frontmost window, where the
/// event is a button going down and there is such a window, and the two
/// settings that govern a drag.
#[derive(Debug, Clone, Copy, PartialEq, Eq, Structural)]
pub struct Surroundings {
    pub frontmost: Option<WindowHandle>,
    pub drag_modifier: Option<Modifier>,
    pub show_drag_overlay: bool,
}

/// What is asked of the overlay.
#[derive(Debug, Clone, Copy, PartialEq, Eq, Structural)]
pub enum OverlayRequest {
    Nothing,
    Show,
    Hide,
}

/// A window let go of with the modifier seen: the zone under the pointer is
/// to be applied to it.
#[derive(Debug, Clone, Copy, PartialEq, Eq, Structural)]
pub struct Release {
    pub window: WindowHandle,
    pub pointer: Pointer,
}

/// What the caller is to do after an event: raise a window, pass the pointer
/// on to the overlay, show or hide the overlay, snap a released window.
#[derive(Debug, Clone, Copy, PartialEq, Eq, Structural)]
pub struct Reaction {
    pub raise: Option<WindowHandle>,
    pub pointer: Option<Pointer>,
    pub overlay: OverlayRequest,
    pub release: Option<Release>,
}

impl Pointer {
    /// The desktop's origin: where the pointer is taken to be before it has
    /// moved.
    pub open spec fn origin() -> Pointer {
        Pointer { x: 0, y: 0 }
    }
}

impl Reaction {
    /// Nothing to do.
    pub open spec fn nothing() -> Reaction {
        Reaction { raise: None, pointer: None, overlay: OverlayRequest::Nothing, release: None }
    }
}

impl DragSession {
    /// No drag is under way, and the pointer was last seen at `pointer`.
    pub open spec fn idle_at(pointer: Pointer) -> DragSession {
        DragSession {
            active: false,
            tracked_window: None,
            modifier_seen_during_drag: false,
            overlay_visible: false,
            last_pointer: pointer,
        }
    }

    /// No drag is under way, and the pointer has not been seen to move.
    pub open spec fn idle() -> DragSession {
        DragSession::idle_at(Pointer::origin())
    }

    /// A session tracks a window exactly while it is active, and an idle
    /// session holds nothing of the last drag but where the pointer is.
    pub open spec fn wf(self) -> bool {
        &&& self.active <==> self.tracked_window is Some
        &&& !self.active ==> self == DragSession::idle_at(self.last_pointer)
    }

    /// The session after the modifiers were looked at again, with what is
    /// asked of the overlay.
    ///
    /// Without a configured modifier nothing happens. A modifier that is held
    /// is noted as seen. The overlay is asked for where the modifier is held,
    /// the setting allows it and the overlay is not up; it is sent away where
    /// the modifier is not held and the overlay is up.
    pub open spec fn rechecked(self, modifiers: ModifierState, around: Surroundings) -> (
        DragSession,
        OverlayRequest,
    ) {
        match around.drag_modifier {
            None => (self, OverlayRequest::Nothing),
            Some(modifier) => {
                let held = modifiers.holds(modifier);
                let seen = self.modifier_seen_during_drag || held;
                if held && around.show_drag_overlay && !self.overlay_visible {
                    (
                        DragSession { modifier_seen_during_drag: seen, overlay_visible: true, ..self },
                        OverlayRequest::Show,
                    )
                } else if !held && self.overlay_visible {
                    (
                        DragSession { modifier_seen_during_drag: seen, overlay_visible: false, ..self },
                        OverlayRequest::Hide,
                    )
                } else {
                    (DragSession { modifier_seen_during_drag: seen, ..self }, OverlayRequest::Nothing)
                }
            },
        }
    }

    fn recheck(&mut self, modifiers: &ModifierState, around: &Surroundings) -> (request: OverlayRequest)
        ensures
            (*final(self), request) == old(self).rechecked(*modifiers, *around),
    {
        match around.drag_modifier {
            None => OverlayRequest::Nothing,
            Some(modifier) => {
                let held = modifiers.is_pressed(modifier);
                if held {
                    self.modifier_seen_during_drag = true;
                }
                if held && around.show_drag_overlay && !self.overlay_visible {
                    self.overlay_visible = true;
                    OverlayRequest::Show
                } else if !held && self.overlay_visible {
                    self.overlay_visible = false;
                    OverlayRequest::Hide
                } else {
                    OverlayRequest::Nothing
                }
            },
        }
    }
}

impl DragEngine {
    /// The engine before any event: no key held, no drag under way.
    pub open spec fn initial() -> DragEngine {
        DragEngine { modifiers: ModifierState::released(), session: DragSession::idle() }
    }

    /// The session is well-formed.
    pub open spec fn wf(self) -> bool {
        self.session.wf()
    }

    /// The engine after an event, and what the caller is to do.
    ///
    /// A button going down while idle starts a drag of the frontmost window,
    /// if there is one: the window is raised and the modifiers are looked at.
    /// While a drag is under way it changes nothing. A move notes the pointer
    /// whether or not a drag is under way; during a drag it also passes the
    /// pointer on, raises the window again and looks at the modifiers. A key
    /// changes the modifiers whether or not a drag is under way; during a
    /// drag a modifier key has them looked at again. The button going up ends
    /// the drag: the overlay is sent away, and where the modifier was seen the
    /// window is released where the pointer was last seen. The pointer's
    /// position outlasts the drag.
    pub open spec fn step(self, event: RawInputEvent, around: Surroundings) -> (DragEngine, Reaction) {
        match event {
            RawInputEvent::ButtonDown => {
                if self.session.active {
                    (self, Reaction::nothing())
                } else {
                    match around.frontmost {
                        None => (self, Reaction::nothing()),
                        Some(window) => {
                            let started = DragSession {
                                active: true,
                                tracked_window: Some(window),
                                modifier_seen_during_drag: false,
                                overlay_visible: false,
                                last_pointer: self.session.last_pointer,
                            };
                            let (session, overlay) = started.rechecked(self.modifiers, around);
                            (
                                DragEngine { session, ..self },
                                Reaction { raise: Some(window), pointer: None, overlay, release: None },
                            )
                        },
                    }
                }
            },
            RawInputEvent::Move { x, y } => {
                let pointer = Pointer { x, y };
                let moved = DragSession { last_pointer: pointer, ..self.session };
                if self.session.active {
                    let (session, overlay) = moved.rechecked(self.modifiers, around);
                    (
                        DragEngine { session, ..self },
                        Reaction {
                            raise: self.session.tracked_window,
                            pointer: Some(pointer),
                            overlay,
                            release: None,
                        },
                    )
                } else {
                    (DragEngine { session: moved, ..self }, Reaction::nothing())
                }
            },
            RawInputEvent::KeyDown { key } => self.keyed(key, true, around),
            RawInputEvent::KeyUp { key } => self.keyed(key, false, around),
            RawInputEvent::ButtonUp => {
                if self.session.active {
                    let release = if self.session.modifier_seen_during_drag {
                        match self.session.tracked_window {
                            Some(window) => Some(Release { window, pointer: self.session.last_pointer }),
                            None => None,
                        }
                    } else {
                        None
                    };
                    (
                        DragEngine { session: DragSession::idle_at(self.session.last_pointer), ..self },
                        Reaction { raise: None, pointer: None, overlay: OverlayRequest::Hide, release },
                    )
                } else {
                    (self, Reaction::nothing())
                }
            },
        }
    }

    /// The engine after `key` went down or up.
    pub open spec fn keyed(self, key: Key, down: bool, around: Surroundings) -> (DragEngine, Reaction) {
        let modifiers = self.modifiers.after(key, down);
        if self.session.active && key.modifier() is Some {
            let (session, overlay) = self.session.rechecked(modifiers, around);
            (DragEngine { modifiers, session }, Reaction { overlay, ..Reaction::nothing() })
        } else {
            (DragEngine { modifiers, ..self }, Reaction::nothing())
        }
    }

    /// The engine before any event.
    pub fn new() -> (engine: DragEngine)
        ensures
            engine == DragEngine::initial(),
            engine.wf(),
    {
        DragEngine {
            modifiers: ModifierState { control: false, alt: false, shift: false, super_key: false },
            session: DragSession {
                active: false,
                tracked_window: None,
                modifier_seen_during_drag: false,
                overlay_visible: false,
                last_pointer: Pointer { x: 0, y: 0 },
            },
        }
    }

    fn on_key(&mut self, key: Key, down: bool, around: &Surroundings) -> (reaction: Reaction)
        ensures
            (*final(self), reaction) == old(self).keyed(key, down, *around),
    {
        self.modifiers.on_key_event(key, down);
        let mut overlay = OverlayRequest::Nothing;
        if self.session.active && key.as_modifier().is_some() {
            let modifiers = self.modifiers;
            overlay = self.session.recheck(&modifiers, around);
        }
        Reaction { raise: None, pointer: None, overlay, release: None }
    }

    /// Takes an input event and says what the caller is to do about it.
    pub fn handle_event(&mut self, event: RawInputEvent, around: Surroundings) -> (reaction: Reaction)
        ensures
            (*final(self), reaction) == old(self).step(event, around),
    {
        let nothing = Reaction { raise: None, pointer: None, overlay: OverlayRequest::Nothing, release: None };
        match event {
            RawInputEvent::ButtonDown => {
                if self.session.active {
                    return nothing;
                }
                match around.frontmost {
                    None => nothing,
                    Some(window) => {
                        self.session.active = true;
                        self.session.tracked_window = Some(window);
                        self.session.modifier_seen_during_drag = false;
                        self.session.overlay_visible = false;
                        let modifiers = self.modifiers;
                        let overlay = self.session.recheck(&modifiers, &around);
                        Reaction { raise: Some(window), pointer: None, overlay, release: None }
                    },
                }
            },
            RawInputEvent::Move { x, y } => {
                let pointer = Pointer { x, y };
                self.session.last_pointer = pointer;
                if !self.session.active {
                    return nothing;
                }
                let raise = self.session.tracked_window;
                let modifiers = self.modifiers;
                let overlay = self.session.recheck(&modifiers, &around);
                Reaction { raise, pointer: Some(pointer), overlay, release: None }
            },
            RawInputEvent::KeyDown { key } => self.on_key(key, true, &around),
            RawInputEvent::KeyUp { key } => self.on_key(key, false, &around),
            RawInputEvent::ButtonUp => {
                if !self.session.active {
                    return nothing;
                }
                let release = if self.session.modifier_seen_during_drag {
                    match self.session.tracked_window {
                        Some(window) => Some(Release { window, pointer: self.session.last_pointer }),
                        None => None,
                    }
                } else {
                    None
                };
                self.session = DragSession {
                    active: false,
                    tracked_window: None,
                    modifier_seen_during_drag: false,
                    overlay_visible: false,
                    last_pointer: self.session.last_pointer,
                };
                Reaction { raise: None, pointer: None, overlay: OverlayRequest::Hide, release }
            },
        }
    }

    /// Takes note that the overlay asked for could not be shown: it is not
    /// up, and the next look at the modifiers asks for it again.
    pub fn overlay_show_failed(&mut self)
        ensures
            *final(self) == (DragEngine {
                session: DragSession { overlay_visible: false, ..old(self).session },
                ..*old(self)
            }),
    {
        self.session.overlay_visible = false;
    }
}

} // verus!
