use crate::snapping::common::ScreenDimensions;
use crate::text::{decimal, number_text};
use vstd::prelude::*;

verus! {

/// The zone overlay: one surface per monitor, made when first shown and kept
/// afterwards, of which at most one is up.
///
/// This keeps the books. The surfaces themselves are the caller's, which does
/// to them what [`ZoneOverlay::show`] and [`ZoneOverlay::hide_all`] say.
pub struct ZoneOverlay {
    surfaces: Vec<usize>,
    visible: Option<usize>,
}

/// What a [`ZoneOverlay`] knows: the monitors that have a surface, and the
/// one whose surface is up.
pub struct OverlayView {
    pub surfaces: Set<usize>,
    pub visible: Option<usize>,
}

/// What showing the overlay on a monitor takes.
#[derive(Debug, Clone, Copy, PartialEq, Eq, Structural)]
pub enum ShowPlan {
    /// The monitor's surface is up already: nothing is to be done.
    AlreadyVisible,
    /// Every surface is to be hidden, the monitor's surface made where
    /// `create` says so, and then handed its data and shown.
    Present { index: usize, create: bool },
}

impl View for ZoneOverlay {
    type V = OverlayView;

    closed spec fn view(&self) -> OverlayView {
        OverlayView { surfaces: self.surfaces@.to_set(), visible: self.visible }
    }
}

/// Where `screen` stands among `screens`: the place of the first screen equal
/// to it, and the first place of all where none is.
pub open spec fn index_of_screen(screens: Seq<ScreenDimensions>, screen: ScreenDimensions) -> int {
    if exists|i: int| is_first_equal(screens, screen, i) {
        choose|i: int| is_first_equal(screens, screen, i)
    } else {
        0
    }
}

/// The screen at `i` is `screen`, and no screen before it is.
pub open spec fn is_first_equal(screens: Seq<ScreenDimensions>, screen: ScreenDimensions, i: int) -> bool {
    &&& 0 <= i < screens.len()
    &&& screens[i] == screen
    &&& forall|j: int| 0 <= j < i ==> #[trigger] screens[j] != screen
}

/// Where `screen` stands among `screens`: the number by which its overlay
/// surface is known.
pub fn screen_index(screens: &Vec<ScreenDimensions>, screen: ScreenDimensions) -> (index: usize)
    ensures
        index == index_of_screen(screens@, screen),
{
    let mut i: usize = 0;
    while i < screens.len()
        invariant
            i <= screens.len(),
            forall|j: int| 0 <= j < i ==> #[trigger] screens[j] != screen,
        decreases screens.len() - i,
    {
        if screens[i] == screen {
            proof {
                assert(is_first_equal(screens@, screen, i as int));
                let k = choose|k: int| is_first_equal(screens@, screen, k);
                assert(k == i);
            }
            return i;
        }
        i += 1;
    }
    proof {
        assert forall|k: int| !is_first_equal(screens@, screen, k) by {}
    }
    0
}

/// The label of the overlay surface of the monitor `index`: `zone-overlay-`
/// and the monitor's number.
pub fn overlay_label(index: usize) -> (label: String)
    ensures
        label@ == "zone-overlay-"@ + decimal(index as nat),
{
    String::from_str("zone-overlay-").concat(number_text(index as u64).as_str())
}

/// What `base64` gives for `bytes` with its URL-safe alphabet and padding:
/// the encoded text.
pub uninterp spec fn base64_url_text(bytes: Seq<u8>) -> Seq<char>;

/// `base64::engine::general_purpose::URL_SAFE.encode`: the bytes in base64,
/// in the alphabet that is safe in a URL, padded.
///
/// Not proved: that the result is a function of the bytes alone, which is
/// what naming it claims. The encoder reads nothing but its argument.
#[verifier::external_body]
fn encode_url_safe(bytes: &[u8]) -> (text: String)
    ensures
        text@ == base64_url_text(bytes@),
{
    base64::Engine::encode(&base64::engine::general_purpose::URL_SAFE, bytes)
}

/// The address an overlay surface is opened at, for data that is encoded
/// already: the overlay's route with the data in the query.
pub fn overlay_url_for(encoded: &str) -> (url: String)
    ensures
        url@ == "index.html?data="@ + encoded@ + "#/zone-overlay"@,
{
    String::from_str("index.html?data=").concat(encoded).concat("#/zone-overlay")
}

/// The address an overlay surface is opened at: the overlay's route, with the
/// surface's first data in the query, encoded so that it can stand in a URL.
pub fn overlay_url(data_json: &str) -> (url: String)
    ensures
        url@ == "index.html?data="@ + base64_url_text(vstd::utf8::encode_utf8(data_json@)) + "#/zone-overlay"@,
{
    let encoded = encode_url_safe(data_json.as_bytes());
    overlay_url_for(encoded.as_str())
}

impl ZoneOverlay {
    /// No surface is listed twice, and the surface that is up is one that
    /// exists.
    pub closed spec fn wf(self) -> bool {
        &&& self.surfaces@.no_duplicates()
        &&& self.visible matches Some(index) ==> self.surfaces@.contains(index)
    }

    /// An overlay without surfaces.
    pub fn new() -> (overlay: ZoneOverlay)
        ensures
            overlay.wf(),
            overlay@ == (OverlayView { surfaces: Set::empty(), visible: None }),
    {
        let overlay = ZoneOverlay { surfaces: Vec::new(), visible: None };
        assert(overlay.surfaces@.to_set() =~= Set::<usize>::empty());
        overlay
    }

    fn has_surface(&self, index: usize) -> (has: bool)
        ensures
            has == self@.surfaces.contains(index),
    {
        let mut i: usize = 0;
        while i < self.surfaces.len()
            invariant
                i <= self.surfaces.len(),
                forall|j: int| 0 <= j < i ==> self.surfaces[j] != index,
            decreases self.surfaces.len() - i,
        {
            if self.surfaces[i] == index {
                assert(self.surfaces@.contains(index));
                return true;
            }
            i += 1;
        }
        assert(!self.surfaces@.contains(index));
        false
    }

    /// What showing the overlay on the monitor `index` takes: nothing where
    /// that monitor's surface is up, and otherwise a surface that is made
    /// only if the monitor has none yet.
    pub fn show(&self, index: usize) -> (plan: ShowPlan)
        ensures
            plan == if self@.visible == Some(index) {
                ShowPlan::AlreadyVisible
            } else {
                ShowPlan::Present { index, create: !self@.surfaces.contains(index) }
            },
    {
        match self.visible {
            Some(up) if up == index => ShowPlan::AlreadyVisible,
            _ => ShowPlan::Present { index, create: !self.has_surface(index) },
        }
    }

    /// Takes note that the surface of the monitor `index` was shown, and the
    /// others hidden before it.
    pub fn shown(&mut self, index: usize)
        requires
            old(self).wf(),
        ensures
            final(self).wf(),
            final(self)@ == (OverlayView {
                surfaces: old(self)@.surfaces.insert(index),
                visible: Some(index),
            }),
    {
        if !self.has_surface(index) {
            self.surfaces.push(index);
            proof {
                let before = old(self).surfaces@;
                assert(self.surfaces@ == before.push(index));
                assert(self.surfaces@.to_set() =~= before.to_set().insert(index)) by {
                    assert forall|v: usize| self.surfaces@.contains(v) <==> before.contains(v) || v
                        == index by {
                        if before.contains(v) {
                            let j = choose|j: int| 0 <= j < before.len() && before[j] == v;
                            assert(self.surfaces@[j] == v);
                        }
                        if v == index {
                            assert(self.surfaces@[before.len() as int] == v);
                        }
                    }
                }
                assert(self.surfaces@.contains(index)) by {
                    assert(self.surfaces@[before.len() as int] == index);
                }
            }
        } else {
            assert(self.surfaces@.to_set() =~= self.surfaces@.to_set().insert(index));
        }
        self.visible = Some(index);
    }

    /// Hides the overlay. Gives the monitor whose surface was up and is to be
    /// hidden, and `None` where no surface was up and nothing is to be done.
    pub fn hide_all(&mut self) -> (was_up: Option<usize>)
        requires
            old(self).wf(),
        ensures
            final(self).wf(),
            was_up == old(self)@.visible,
            final(self)@ == (OverlayView { surfaces: old(self)@.surfaces, visible: None }),
    {
        let was_up = self.visible;
        self.visible = None;
        was_up
    }

    /// The monitors whose surfaces the pointer's position is passed on to:
    /// every surface that exists, up or not.
    pub fn update_mouse_position(&self, x: i32, y: i32) -> (targets: Vec<usize>)
        requires
            self.wf(),
        ensures
            targets@.to_set() == self@.surfaces,
            targets@.no_duplicates(),
    {
        self.surfaces.clone()
    }
}

} // verus!
