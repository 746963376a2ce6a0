use crate::snapping::common::{zone_parts, ScreenDimensions};
use crate::snapping::window_rect::WindowRect;
use crate::store::zone_layouts::{zone_box, Zone};
use crate::text::{decimal, number_text};
use vstd::hash_map::StringHashMap;
use vstd::prelude::*;

verus! {

/// The label of the window that stands for the zone `zone_id`.
pub open spec fn zone_label(zone_id: Seq<char>) -> Seq<char> {
    "zone-"@ + zone_id
}

/// The label of the window that stands for the zone `zone_id`: `zone-` and
/// the zone's identifier.
pub fn zone_window_label(zone_id: &str) -> (label: String)
    ensures
        label@ == zone_label(zone_id@),
{
    String::from_str("zone-").concat(zone_id)
}

/// The title of the window that stands for the zone numbered `number`.
pub fn zone_window_title(number: u32) -> (title: String)
    ensures
        title@ == "Zone "@ + decimal(number as nat),
{
    String::from_str("Zone ").concat(number_text(number as u64).as_str())
}

/// Where the window that stands for `zone` goes on `screen`: the zone's box in
/// pixels of the global desktop space. `None` where a [`WindowRect`] cannot
/// hold the box.
pub fn zone_window_rect(zone: &Zone, screen: ScreenDimensions) -> (rect: Option<WindowRect>)
    ensures
        match rect {
            Some(r) => r@ == zone_box(zone@, screen),
            None => !zone_box(zone@, screen).fits(),
        },
{
    let (zx, zy, zw, zh) = zone_parts(zone, screen);
    let x = zx + screen.x as i64;
    let y = zy + screen.y as i64;
    if -2147483648 <= x && x <= 2147483647 && -2147483648 <= y && y <= 2147483647 && -2147483648 <= zw
        && zw <= 2147483647 && -2147483648 <= zh && zh <= 2147483647 {
        Some(WindowRect { x: x as i32, y: y as i32, width: zw as i32, height: zh as i32 })
    } else {
        None
    }
}

/// The zone windows that are open, by their labels.
pub struct ZoneWindows {
    labels: StringHashMap<()>,
}

/// What is to be done for a zone: its window is moved where there is one, and
/// made where there is none.
#[derive(Debug, Clone, Copy, PartialEq, Eq, Structural)]
pub enum ZoneWindowStep {
    Update,
    Create,
}

impl View for ZoneWindows {
    type V = Set<Seq<char>>;

    closed spec fn view(&self) -> Set<Seq<char>> {
        self.labels@.dom()
    }
}

impl ZoneWindows {
    /// No zone window is open.
    pub fn new() -> (windows: ZoneWindows)
        ensures
            windows@ == Set::<Seq<char>>::empty(),
    {
        let windows = ZoneWindows { labels: StringHashMap::new() };
        assert(windows@ =~= Set::<Seq<char>>::empty());
        windows
    }

    /// What is to be done to put up the window of the zone `zone_id`: the
    /// window is moved where the zone has one, and made where it has none.
    pub fn create_zone_window(&self, zone_id: &str) -> (step: ZoneWindowStep)
        ensures
            step == if self@.contains(zone_label(zone_id@)) {
                ZoneWindowStep::Update
            } else {
                ZoneWindowStep::Create
            },
    {
        if self.has_zone_window(zone_id) {
            ZoneWindowStep::Update
        } else {
            ZoneWindowStep::Create
        }
    }

    /// Takes note that the window of the zone `zone_id` was made.
    pub fn insert_zone_window(&mut self, zone_id: &str)
        ensures
            final(self)@ == old(self)@.insert(zone_label(zone_id@)),
    {
        self.labels.insert(zone_window_label(zone_id), ());
        assert(self@ =~= old(self)@.insert(zone_label(zone_id@)));
    }

    /// Forgets the window of the zone `zone_id`, without closing it: for a
    /// window that is closing already.
    pub fn remove_zone_window_from_map(&mut self, zone_id: &str) -> (was_open: bool)
        ensures
            was_open == old(self)@.contains(zone_label(zone_id@)),
            final(self)@ == old(self)@.remove(zone_label(zone_id@)),
    {
        let label = zone_window_label(zone_id);
        let was_open = self.labels.contains_key(label.as_str());
        self.labels.remove(label.as_str());
        assert(self@ =~= old(self)@.remove(zone_label(zone_id@)));
        was_open
    }

    /// The window of the zone `zone_id` is open.
    pub fn has_zone_window(&self, zone_id: &str) -> (open: bool)
        ensures
            open == self@.contains(zone_label(zone_id@)),
    {
        let label = zone_window_label(zone_id);
        self.labels.contains_key(label.as_str())
    }
}

} // verus!
