use crate::text::str_eq;
use vstd::prelude::*;

verus! {

/// One of the four modifier keys, whichever side of the keyboard it is on.
#[derive(Debug, Clone, Copy, PartialEq, Eq, Structural)]
pub enum Modifier {
    Control,
    Alt,
    Shift,
    Super,
}

/// A key of the keyboard, as far as modifiers are concerned: the eight keys
/// that are modifiers, and every other key as one.
#[derive(Debug, Clone, Copy, PartialEq, Eq, Structural)]
pub enum Key {
    ControlLeft,
    ControlRight,
    Alt,
    AltGr,
    ShiftLeft,
    ShiftRight,
    MetaLeft,
    MetaRight,
    Other,
}

/// Which of the four modifiers are held down.
#[derive(Debug, Clone, Copy, PartialEq, Eq, Structural)]
pub struct ModifierState {
    pub control: bool,
    pub alt: bool,
    pub shift: bool,
    pub super_key: bool,
}

impl Modifier {
    /// The modifier that a setting names: `control`, `alt`, `shift` or
    /// `super`, and none for any other name.
    pub open spec fn named(name: Seq<char>) -> Option<Modifier> {
        if name == "control"@ {
            Some(Modifier::Control)
        } else if name == "alt"@ {
            Some(Modifier::Alt)
        } else if name == "shift"@ {
            Some(Modifier::Shift)
        } else if name == "super"@ {
            Some(Modifier::Super)
        } else {
            None
        }
    }

    /// The modifier that a setting names.
    pub fn from_name(name: &str) -> (modifier: Option<Modifier>)
        ensures
            modifier == Modifier::named(name@),
    {
        if str_eq(name, "control") {
            Some(Modifier::Control)
        } else if str_eq(name, "alt") {
            Some(Modifier::Alt)
        } else if str_eq(name, "shift") {
            Some(Modifier::Shift)
        } else if str_eq(name, "super") {
            Some(Modifier::Super)
        } else {
            None
        }
    }

    /// The name that a setting gives this modifier.
    pub fn as_str(&self) -> (name: &'static str)
        ensures
            Modifier::named(name@) == Some(*self),
    {
        proof {
            reveal_strlit("control");
            reveal_strlit("alt");
            reveal_strlit("shift");
            reveal_strlit("super");
            assert("control"@.len() == 7 && "alt"@.len() == 3);
            assert("shift"@.len() == 5 && "shift"@[1] == 'h');
            assert("super"@.len() == 5 && "super"@[1] == 'u');
        }
        match self {
            Modifier::Control => "control",
            Modifier::Alt => "alt",
            Modifier::Shift => "shift",
            Modifier::Super => "super",
        }
    }
}

impl Key {
    /// The modifier that this key is, if it is one. The left and the right
    /// key of a pair are the same modifier.
    pub open spec fn modifier(self) -> Option<Modifier> {
        match self {
            Key::ControlLeft | Key::ControlRight => Some(Modifier::Control),
            Key::Alt | Key::AltGr => Some(Modifier::Alt),
            Key::ShiftLeft | Key::ShiftRight => Some(Modifier::Shift),
            Key::MetaLeft | Key::MetaRight => Some(Modifier::Super),
            Key::Other => None,
        }
    }

    /// The modifier that this key is, if it is one.
    pub fn as_modifier(&self) -> (modifier: Option<Modifier>)
        ensures
            modifier == self.modifier(),
    {
        match self {
            Key::ControlLeft | Key::ControlRight => Some(Modifier::Control),
            Key::Alt | Key::AltGr => Some(Modifier::Alt),
            Key::ShiftLeft | Key::ShiftRight => Some(Modifier::Shift),
            Key::MetaLeft | Key::MetaRight => Some(Modifier::Super),
            Key::Other => None,
        }
    }
}

impl ModifierState {
    /// No modifier is held.
    pub open spec fn released() -> ModifierState {
        ModifierState { control: false, alt: false, shift: false, super_key: false }
    }

    /// `modifier` is held.
    pub open spec fn holds(self, modifier: Modifier) -> bool {
        match modifier {
            Modifier::Control => self.control,
            Modifier::Alt => self.alt,
            Modifier::Shift => self.shift,
            Modifier::Super => self.super_key,
        }
    }

    /// The state with `modifier` held or not as `down` says, and the other
    /// three as they are.
    pub open spec fn with(self, modifier: Modifier, down: bool) -> ModifierState {
        match modifier {
            Modifier::Control => ModifierState { control: down, ..self },
            Modifier::Alt => ModifierState { alt: down, ..self },
            Modifier::Shift => ModifierState { shift: down, ..self },
            Modifier::Super => ModifierState { super_key: down, ..self },
        }
    }

    /// The state after `key` went down or up: a modifier key sets or clears
    /// its modifier, any other key changes nothing.
    pub open spec fn after(self, key: Key, down: bool) -> ModifierState {
        match key.modifier() {
            Some(modifier) => self.with(modifier, down),
            None => self,
        }
    }

    /// `modifier` is held.
    pub fn is_pressed(&self, modifier: Modifier) -> (held: bool)
        ensures
            held == self.holds(modifier),
    {
        match modifier {
            Modifier::Control => self.control,
            Modifier::Alt => self.alt,
            Modifier::Shift => self.shift,
            Modifier::Super => self.super_key,
        }
    }

    /// The modifier that `modifier_key` names is held. A name that names no
    /// modifier is never held.
    pub fn is_modifier_pressed(&self, modifier_key: &str) -> (held: bool)
        ensures
            held == match Modifier::named(modifier_key@) {
                Some(modifier) => self.holds(modifier),
                None => false,
            },
    {
        match Modifier::from_name(modifier_key) {
            Some(modifier) => self.is_pressed(modifier),
            None => false,
        }
    }

    /// Takes note that `key` went down or up, and gives the state after it.
    pub fn on_key_event(&mut self, key: Key, down: bool) -> (now: ModifierState)
        ensures
            *final(self) == old(self).after(key, down),
            now == *final(self),
    {
        match key.as_modifier() {
            Some(Modifier::Control) => {
                self.control = down;
            },
            Some(Modifier::Alt) => {
                self.alt = down;
            },
            Some(Modifier::Shift) => {
                self.shift = down;
            },
            Some(Modifier::Super) => {
                self.super_key = down;
            },
            None => {},
        }
        *self
    }
}

impl Default for ModifierState {
    fn default() -> (state: ModifierState)
        ensures
            state == ModifierState::released(),
    {
        ModifierState { control: false, alt: false, shift: false, super_key: false }
    }
}

/// A key event changes the modifier of its key and no other.
pub proof fn key_event_touches_its_modifier_only(state: ModifierState, key: Key, down: bool, other: Modifier)
    ensures
        key.modifier() == Some(other) ==> state.after(key, down).holds(other) == down,
        key.modifier() != Some(other) ==> state.after(key, down).holds(other) == state.holds(other),
{
}

} // verus!
