//! Which shortcut is bound to which action. Registering the shortcuts with
//! the system and keeping the bindings between runs is the caller's.

use crate::snapping::action::LayoutAction;
use crate::text::str_eq;
use vstd::prelude::*;

verus! {

/// A shortcut and the name of the action it is bound to.
#[derive(Debug, Clone, PartialEq, Eq)]
pub struct HotkeyBinding {
    pub shortcut: String,
    pub action: String,
}

/// What a [`HotkeyBinding`] holds.
pub struct HotkeyBindingView {
    pub shortcut: Seq<char>,
    pub action: Seq<char>,
}

impl View for HotkeyBinding {
    type V = HotkeyBindingView;

    open spec fn view(&self) -> HotkeyBindingView {
        HotkeyBindingView { shortcut: self.shortcut@, action: self.action@ }
    }
}

/// What a list of bindings holds, in order.
pub open spec fn binding_views(bindings: Seq<HotkeyBinding>) -> Seq<HotkeyBindingView> {
    Seq::new(bindings.len(), |i: int| bindings[i]@)
}

/// The binding at `i` is bound to `action`, and no binding before it is.
pub open spec fn is_first_bound_to(bindings: Seq<HotkeyBindingView>, action: Seq<char>, i: int) -> bool {
    &&& 0 <= i < bindings.len()
    &&& bindings[i].action == action
    &&& forall|j: int| 0 <= j < i ==> (#[trigger] bindings[j]).action != action
}

/// The bindings after the action `action` was unbound, with the shortcut that
/// was bound to it: the first binding to the action leaves, and nothing
/// changes where the action is not bound.
pub open spec fn unbound(bindings: Seq<HotkeyBindingView>, action: Seq<char>) -> (
    Seq<HotkeyBindingView>,
    Option<Seq<char>>,
) {
    if exists|i: int| is_first_bound_to(bindings, action, i) {
        let i = choose|i: int| is_first_bound_to(bindings, action, i);
        (bindings.remove(i), Some(bindings[i].shortcut))
    } else {
        (bindings, None)
    }
}

/// Unbinds `action`: takes the first binding to an action of its name out of
/// `bindings` and gives the shortcut that is to be unregistered.
pub fn unregister_hotkey_action(bindings: &mut Vec<HotkeyBinding>, action: &LayoutAction) -> (shortcut:
    Option<String>)
    ensures
        ({
            let (left, freed) = unbound(binding_views(old(bindings)@), action.name());
            &&& binding_views(final(bindings)@) == left
            &&& match shortcut {
                Some(s) => freed == Some(s@),
                None => freed is None,
            }
        }),
{
    let name = action.as_str();
    let ghost before = binding_views(bindings@);
    let mut i: usize = 0;
    while i < bindings.len()
        invariant
            i <= bindings.len(),
            before == binding_views(bindings@),
            before == binding_views(old(bindings)@),
            name@ == action.name(),
            forall|j: int| 0 <= j < i ==> (#[trigger] before[j]).action != name@,
        decreases bindings.len() - i,
    {
        if str_eq(bindings[i].action.as_str(), name) {
            proof {
                assert(is_first_bound_to(before, name@, i as int));
                let k = choose|k: int| is_first_bound_to(before, name@, k);
                assert(k == i);
            }
            let ghost held = bindings@;
            let binding = bindings.remove(i);
            assert(binding@ == before[i as int]) by {
                assert(binding == held[i as int]);
            }
            assert(binding_views(bindings@) =~= before.remove(i as int));
            return Some(binding.shortcut);
        }
        i += 1;
    }
    proof {
        assert forall|k: int| !is_first_bound_to(before, name@, k) by {}
    }
    None
}

} // verus!
