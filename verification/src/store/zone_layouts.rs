use crate::snapping::common::{zone_frame, zone_parts, ScreenDimensions};
use crate::snapping::window_rect::Frame;
use crate::text::str_eq;
use vstd::prelude::*;

verus! {

/// One percent, in the unit a [`Zone`] stores its coordinates in.
///
/// A zone's box is given in percent of a screen. It is held as a whole number
/// of millionths of a percent, so that `50_000_000` is half the screen.
pub const UNITS_PER_PERCENT: u32 = 1_000_000;

/// The whole screen: one hundred percent, in stored units.
pub const FULL_EXTENT: u32 = 100_000_000;

/// A rectangular region of a screen, in percent of the screen's size, with the
/// number it is addressed by.
#[derive(Debug, Clone)]
pub struct Zone {
    pub id: String,
    pub x: u32,
    pub y: u32,
    pub width: u32,
    pub height: u32,
    pub number: u32,
}

/// What a [`Zone`] holds, with its identifier as a sequence of characters.
pub struct ZoneView {
    pub id: Seq<char>,
    pub x: u32,
    pub y: u32,
    pub width: u32,
    pub height: u32,
    pub number: u32,
}

impl View for Zone {
    type V = ZoneView;

    open spec fn view(&self) -> ZoneView {
        ZoneView {
            id: self.id@,
            x: self.x,
            y: self.y,
            width: self.width,
            height: self.height,
            number: self.number,
        }
    }
}

/// A named, ordered collection of zones. Zone numbers need not be unique; the
/// first zone with a number is the one the number addresses.
#[derive(Debug, Clone)]
pub struct ZoneLayout {
    pub id: String,
    pub name: String,
    pub zones: Vec<Zone>,
}

/// What a [`ZoneLayout`] holds.
pub struct ZoneLayoutView {
    pub id: Seq<char>,
    pub name: Seq<char>,
    pub zones: Seq<ZoneView>,
}

impl View for ZoneLayout {
    type V = ZoneLayoutView;

    open spec fn view(&self) -> ZoneLayoutView {
        ZoneLayoutView {
            id: self.id@,
            name: self.name@,
            zones: self.zones@.map_values(|z: Zone| z@),
        }
    }
}

/// The zone at `i` has the number `number`, and no zone before it has.
pub open spec fn is_first_numbered(zones: Seq<ZoneView>, number: u32, i: int) -> bool {
    &&& 0 <= i < zones.len()
    &&& zones[i].number == number
    &&& forall|j: int| 0 <= j < i ==> zones[j].number != number
}

/// The zone that `number` addresses: the first one in order that has the
/// number, if any has.
pub open spec fn addressed_zone(zones: Seq<ZoneView>, number: u32) -> Option<ZoneView> {
    if exists|i: int| is_first_numbered(zones, number, i) {
        Some(zones[choose|i: int| is_first_numbered(zones, number, i)])
    } else {
        None
    }
}

impl ZoneLayout {
    /// The zone that `number` addresses: the first one in order that has the
    /// number.
    pub fn zone_numbered(&self, number: u32) -> (zone: Option<&Zone>)
        ensures
            match zone {
                Some(z) => addressed_zone(self@.zones, number) == Some(z@),
                None => addressed_zone(self@.zones, number) is None,
            },
    {
        let ghost zones = self@.zones;
        let mut i: usize = 0;
        while i < self.zones.len()
            invariant
                i <= self.zones.len(),
                zones == self@.zones,
                zones.len() == self.zones.len(),
                forall|j: int| 0 <= j < i ==> zones[j].number != number,
            decreases self.zones.len() - i,
        {
            if self.zones[i].number == number {
                proof {
                    assert(zones[i as int] == self.zones[i as int]@);
                    assert(is_first_numbered(zones, number, i as int));
                    let k = choose|k: int| is_first_numbered(zones, number, k);
                    assert(k == i);
                }
                return Some(&self.zones[i]);
            }
            i += 1;
        }
        proof {
            assert forall|k: int| !is_first_numbered(zones, number, k) by {}
        }
        None
    }
}

/// The point `(x, y)` lies in `frame`: on or after its near edges and before
/// its far ones.
pub open spec fn frame_holds(frame: Frame, x: int, y: int) -> bool {
    &&& frame.x <= x < frame.x + frame.width
    &&& frame.y <= y < frame.y + frame.height
}

/// The box of `zone` on `screen` in pixels of the global desktop space.
pub open spec fn zone_box(zone: ZoneView, screen: ScreenDimensions) -> Frame {
    let relative = zone_frame(zone, screen);
    Frame {
        x: relative.x + screen.x,
        y: relative.y + screen.y,
        width: relative.width,
        height: relative.height,
    }
}

/// The zone at `i` holds the point, and no zone before it does.
pub open spec fn is_first_holding(
    zones: Seq<ZoneView>,
    screen: ScreenDimensions,
    x: int,
    y: int,
    i: int,
) -> bool {
    &&& 0 <= i < zones.len()
    &&& frame_holds(zone_box(zones[i], screen), x, y)
    &&& forall|j: int| 0 <= j < i ==> !frame_holds(zone_box(#[trigger] zones[j], screen), x, y)
}

/// The zone under a point: the first one in order whose box on `screen`
/// holds it, if any does.
pub open spec fn zone_under(zones: Seq<ZoneView>, screen: ScreenDimensions, x: int, y: int) -> Option<
    ZoneView,
> {
    if exists|i: int| is_first_holding(zones, screen, x, y, i) {
        Some(zones[choose|i: int| is_first_holding(zones, screen, x, y, i)])
    } else {
        None
    }
}

impl ZoneLayout {
    /// The zone under the point `(x, y)` of the global desktop space, for a
    /// layout laid over `screen`: the first zone in order whose box holds the
    /// point.
    pub fn get_zone_at_position(&self, x: i32, y: i32, screen: ScreenDimensions) -> (zone: Option<&Zone>)
        ensures
            match zone {
                Some(z) => zone_under(self@.zones, screen, x as int, y as int) == Some(z@),
                None => zone_under(self@.zones, screen, x as int, y as int) is None,
            },
    {
        let ghost zones = self@.zones;
        let mut i: usize = 0;
        while i < self.zones.len()
            invariant
                i <= self.zones.len(),
                zones == self@.zones,
                zones.len() == self.zones.len(),
                forall|j: int| 0 <= j < i ==> !frame_holds(zone_box(#[trigger] zones[j], screen), x as int, y as int),
            decreases self.zones.len() - i,
        {
            assert(zones[i as int] == self.zones[i as int]@);
            let (zx, zy, zw, zh) = zone_parts(&self.zones[i], screen);
            let left = zx + screen.x as i64;
            let top = zy + screen.y as i64;
            let px = x as i64;
            let py = y as i64;
            if left <= px && px < left + zw && top <= py && py < top + zh {
                proof {
                    assert(is_first_holding(zones, screen, x as int, y as int, i as int));
                    let k = choose|k: int| is_first_holding(zones, screen, x as int, y as int, k);
                    assert(k == i);
                }
                return Some(&self.zones[i]);
            }
            i += 1;
        }
        proof {
            assert forall|k: int| !is_first_holding(zones, screen, x as int, y as int, k) by {}
        }
        None
    }
}

/// What a list of layouts holds, in order.
pub open spec fn layout_views(layouts: Seq<ZoneLayout>) -> Seq<ZoneLayoutView> {
    Seq::new(layouts.len(), |i: int| layouts[i]@)
}

/// The layout at `i` has the identifier `id`, and no layout before it has.
pub open spec fn is_first_with_id(layouts: Seq<ZoneLayoutView>, id: Seq<char>, i: int) -> bool {
    &&& 0 <= i < layouts.len()
    &&& layouts[i].id == id
    &&& forall|j: int| 0 <= j < i ==> (#[trigger] layouts[j]).id != id
}

/// Where the first layout with the identifier `id` stands, if there is one.
pub open spec fn position_of(layouts: Seq<ZoneLayoutView>, id: Seq<char>) -> Option<int> {
    if exists|i: int| is_first_with_id(layouts, id, i) {
        Some(choose|i: int| is_first_with_id(layouts, id, i))
    } else {
        None
    }
}

/// The list after `layout` was saved: it stands in place of the first layout
/// with its identifier, or at the end where there was none.
pub open spec fn with_saved(layouts: Seq<ZoneLayoutView>, layout: ZoneLayoutView) -> Seq<ZoneLayoutView> {
    match position_of(layouts, layout.id) {
        Some(i) => layouts.update(i, layout),
        None => layouts.push(layout),
    }
}

/// The list without the layouts that have the identifier `id`.
pub open spec fn without(layouts: Seq<ZoneLayoutView>, id: Seq<char>) -> Seq<ZoneLayoutView> {
    layouts.filter(|l: ZoneLayoutView| l.id != id)
}

/// Where the first layout with the identifier `layout_id` stands.
fn find_layout(layouts: &Vec<ZoneLayout>, layout_id: &str) -> (at: Option<usize>)
    ensures
        match at {
            Some(i) => position_of(layout_views(layouts@), layout_id@) == Some(i as int),
            None => position_of(layout_views(layouts@), layout_id@) is None,
        },
        at matches Some(i) ==> i < layouts.len(),
{
    let ghost views = layout_views(layouts@);
    let mut i: usize = 0;
    while i < layouts.len()
        invariant
            i <= layouts.len(),
            views == layout_views(layouts@),
            forall|j: int| 0 <= j < i ==> (#[trigger] views[j]).id != layout_id@,
        decreases layouts.len() - i,
    {
        if str_eq(layouts[i].id.as_str(), layout_id) {
            proof {
                assert(is_first_with_id(views, layout_id@, i as int));
                let k = choose|k: int| is_first_with_id(views, layout_id@, k);
                assert(k == i);
            }
            return Some(i);
        }
        i += 1;
    }
    proof {
        assert forall|k: int| !is_first_with_id(views, layout_id@, k) by {}
    }
    None
}

/// The first of `layouts` with the identifier `layout_id`, if there is one.
pub fn get_zone_layout(layouts: Vec<ZoneLayout>, layout_id: &str) -> (found: Option<ZoneLayout>)
    ensures
        match found {
            Some(layout) => position_of(layout_views(layouts@), layout_id@) matches Some(i)
                && layout@ == layout_views(layouts@)[i],
            None => position_of(layout_views(layouts@), layout_id@) is None,
        },
{
    let mut layouts = layouts;
    match find_layout(&layouts, layout_id) {
        Some(i) => Some(layouts.remove(i)),
        None => None,
    }
}

/// Saves `layout` in `layouts`: over the first layout with the same
/// identifier, or at the end where there is none.
pub fn save_zone_layout(layouts: &mut Vec<ZoneLayout>, layout: ZoneLayout)
    ensures
        layout_views(final(layouts)@) == with_saved(layout_views(old(layouts)@), layout@),
{
    let ghost before = layout_views(layouts@);
    let ghost saved = layout@;
    match find_layout(layouts, layout.id.as_str()) {
        Some(i) => {
            layouts.set(i, layout);
            assert(layout_views(layouts@) =~= before.update(i as int, saved));
        },
        None => {
            layouts.push(layout);
            assert(layout_views(layouts@) =~= before.push(saved));
        },
    }
}

/// Removes from `layouts` every layout with the identifier `layout_id`. The
/// others keep their order.
pub fn delete_zone_layout(layouts: &mut Vec<ZoneLayout>, layout_id: &str)
    ensures
        layout_views(final(layouts)@) == without(layout_views(old(layouts)@), layout_id@),
{
    let ghost before = layout_views(layouts@);
    let ghost keep = |l: ZoneLayoutView| l.id != layout_id@;
    let ghost mut k: int = 0;
    let mut i: usize = 0;
    proof {
        reveal(Seq::filter);
        assert(before.take(0).filter(keep) =~= Seq::<ZoneLayoutView>::empty());
        assert(layout_views(layouts@).take(0) =~= Seq::<ZoneLayoutView>::empty());
        assert(layout_views(layouts@).skip(0) =~= before.skip(0));
    }
    while i < layouts.len()
        invariant
            i <= layouts.len(),
            0 <= k <= before.len(),
            layouts.len() - i == before.len() - k,
            keep == |l: ZoneLayoutView| l.id != layout_id@,
            layout_views(layouts@).take(i as int) == before.take(k).filter(keep),
            layout_views(layouts@).skip(i as int) == before.skip(k),
        decreases layouts.len() - i,
    {
        let ghost views = layout_views(layouts@);
        proof {
            assert(views.skip(i as int)[0] == before.skip(k)[0]);
            assert(views[i as int] == before[k]);
            assert(before.take(k + 1).drop_last() =~= before.take(k));
            assert(before.take(k + 1).last() == before[k]);
            reveal(Seq::filter);
        }
        if str_eq(layouts[i].id.as_str(), layout_id) {
            layouts.remove(i);
            proof {
                let after = layout_views(layouts@);
                assert(after.take(i as int) =~= views.take(i as int));
                assert(after.skip(i as int) =~= views.skip(i as int).skip(1));
                assert(before.skip(k + 1) =~= before.skip(k).skip(1));
                assert(!keep(before[k]));
                assert(before.take(k + 1).filter(keep) == before.take(k).filter(keep));
                k = k + 1;
            }
        } else {
            proof {
                assert(keep(before[k]));
                assert(before.take(k + 1).filter(keep) == before.take(k).filter(keep).push(before[k]));
                assert(views.take(i + 1) =~= views.take(i as int).push(views[i as int]));
                assert(views.skip(i + 1) =~= views.skip(i as int).skip(1));
                assert(before.skip(k + 1) =~= before.skip(k).skip(1));
                k = k + 1;
            }
            i += 1;
        }
    }
    proof {
        assert(layout_views(layouts@).take(i as int) =~= layout_views(layouts@));
        assert(before.take(k) =~= before);
    }
}

/// A layout that was saved is the first with its identifier.
pub proof fn saved_layout_is_found(layouts: Seq<ZoneLayoutView>, layout: ZoneLayoutView)
    ensures
        position_of(with_saved(layouts, layout), layout.id) matches Some(i) && with_saved(layouts, layout)[i]
            == layout,
{
    let after = with_saved(layouts, layout);
    match position_of(layouts, layout.id) {
        Some(i) => {
            assert(is_first_with_id(layouts, layout.id, i));
            assert(is_first_with_id(after, layout.id, i)) by {
                assert forall|j: int| 0 <= j < i implies (#[trigger] after[j]).id != layout.id by {
                    assert(after[j] == layouts[j]);
                }
            }
            let k = choose|k: int| is_first_with_id(after, layout.id, k);
            assert(k == i);
        },
        None => {
            let n = layouts.len() as int;
            assert(is_first_with_id(after, layout.id, n)) by {
                assert forall|j: int| 0 <= j < n implies (#[trigger] after[j]).id != layout.id by {
                    assert(after[j] == layouts[j]);
                    if layouts[j].id == layout.id {
                        first_exists(layouts, layout.id, j);
                    }
                }
            }
            let k = choose|k: int| is_first_with_id(after, layout.id, k);
            assert(k == n);
        },
    }
}

/// Where some layout has an identifier, one is the first that has it.
proof fn first_exists(layouts: Seq<ZoneLayoutView>, id: Seq<char>, at: int)
    requires
        0 <= at < layouts.len(),
        layouts[at].id == id,
    ensures
        exists|i: int| is_first_with_id(layouts, id, i),
    decreases at,
{
    if forall|j: int| 0 <= j < at ==> (#[trigger] layouts[j]).id != id {
        assert(is_first_with_id(layouts, id, at));
    } else {
        let j = choose|j: int| 0 <= j < at && (#[trigger] layouts[j]).id == id;
        first_exists(layouts, id, j);
    }
}

/// Saving a layout leaves every layout with another identifier where it
/// was.
pub proof fn saving_keeps_the_others(layouts: Seq<ZoneLayoutView>, layout: ZoneLayoutView, i: int)
    requires
        0 <= i < layouts.len(),
        layouts[i].id != layout.id,
    ensures
        i < with_saved(layouts, layout).len(),
        with_saved(layouts, layout)[i] == layouts[i],
{
    match position_of(layouts, layout.id) {
        Some(k) => {
            assert(is_first_with_id(layouts, layout.id, k));
        },
        None => {},
    }
}

/// Once a layout is deleted, no layout has its identifier.
pub proof fn deleted_layout_is_gone(layouts: Seq<ZoneLayoutView>, id: Seq<char>)
    ensures
        position_of(without(layouts, id), id) is None,
        forall|i: int| 0 <= i < without(layouts, id).len() ==> (#[trigger] without(layouts, id)[i]).id != id,
{
    let keep = |l: ZoneLayoutView| l.id != id;
    let left = without(layouts, id);
    assert forall|i: int| 0 <= i < left.len() implies (#[trigger] left[i]).id != id by {
        layouts.lemma_filter_pred(keep, i);
    }
    assert forall|i: int| !is_first_with_id(left, id, i) by {
        if 0 <= i < left.len() {
            assert(left[i].id != id);
        }
    }
}

} // verus!
