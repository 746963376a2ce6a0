use crate::snapping::window_rect::WindowRect;
use vstd::hash_map::StringHashMap;
use vstd::prelude::*;

verus! {

/// Where a window was last placed, with the identifier of the window.
#[derive(Debug, Clone, PartialEq)]
pub struct WindowState {
    pub window_rect: WindowRect,
    pub window_id: String,
}

/// What a [`WindowState`] holds, with the identifier as a sequence of
/// characters.
pub struct WindowStateView {
    pub window_rect: WindowRect,
    pub window_id: Seq<char>,
}

impl View for WindowState {
    type V = WindowStateView;

    open spec fn view(&self) -> WindowStateView {
        WindowStateView { window_rect: self.window_rect, window_id: self.window_id@ }
    }
}

impl WindowState {
    /// The state of the window `window_id`, placed at `window_rect`.
    pub fn new(window_id: &str, window_rect: WindowRect) -> (state: WindowState)
        ensures
            state@ == (WindowStateView { window_rect, window_id: window_id@ }),
    {
        WindowState { window_id: window_id.to_owned(), window_rect }
    }

    /// A copy of this state.
    pub fn duplicate(&self) -> (copy: WindowState)
        ensures
            copy@ == self@,
    {
        WindowState { window_id: self.window_id.clone(), window_rect: self.window_rect }
    }
}

/// The placement history: for each window identifier seen so far, the state
/// last stored under it. Nothing is ever evicted.
pub struct WindowStateStore {
    states: StringHashMap<WindowState>,
}

impl View for WindowStateStore {
    type V = Map<Seq<char>, WindowStateView>;

    closed spec fn view(&self) -> Map<Seq<char>, WindowStateView> {
        self.states@.map_values(|state: WindowState| state@)
    }
}

impl WindowStateStore {
    /// A store that has seen no window.
    pub fn new() -> (store: WindowStateStore)
        ensures
            store@ == Map::<Seq<char>, WindowStateView>::empty(),
    {
        let store = WindowStateStore { states: StringHashMap::new() };
        assert(store@ =~= Map::<Seq<char>, WindowStateView>::empty());
        store
    }
}

/// The state stored under `window_id`, if the window has been seen.
pub fn get_window_state(store: &WindowStateStore, window_id: &str) -> (state: Option<WindowState>)
    ensures
        match state {
            Some(s) => store@.contains_key(window_id@) && s@ == store@[window_id@],
            None => !store@.contains_key(window_id@),
        },
{
    match store.states.get(window_id) {
        Some(state) => Some(state.duplicate()),
        None => None,
    }
}

/// Stores `window_state` under `window_id`, in place of what was stored
/// there before.
pub fn insert_window_state(store: &mut WindowStateStore, window_id: &str, window_state: WindowState)
    ensures
        final(store)@ == old(store)@.insert(window_id@, window_state@),
{
    let ghost stored = window_state@;
    store.states.insert(window_id.to_owned(), window_state);
    assert(store@ =~= old(store)@.insert(window_id@, stored));
}

} // verus!
