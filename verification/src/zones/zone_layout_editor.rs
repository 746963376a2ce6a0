use crate::snapping::common::ScreenDimensions;
use crate::text::{decimal, number_text};
use vstd::prelude::*;

verus! {

/// A monitor as the platform reports it.
#[derive(Debug, Clone, Copy, PartialEq, Eq, Structural)]
pub struct Display {
    pub x: i32,
    pub y: i32,
    pub width: u32,
    pub height: u32,
    pub is_primary: bool,
}

/// A screen as the user interface is told of it: where it lies, how large it
/// is, and the name it goes by.
#[derive(Debug, Clone)]
pub struct ScreenInfo {
    pub x: i32,
    pub y: i32,
    pub width: u32,
    pub height: u32,
    pub id: String,
}

/// What a [`ScreenInfo`] holds, with its name as a sequence of characters.
pub struct ScreenInfoView {
    pub x: i32,
    pub y: i32,
    pub width: u32,
    pub height: u32,
    pub id: Seq<char>,
}

impl View for ScreenInfo {
    type V = ScreenInfoView;

    open spec fn view(&self) -> ScreenInfoView {
        ScreenInfoView { x: self.x, y: self.y, width: self.width, height: self.height, id: self.id@ }
    }
}

/// The name of the screen at `index`: `screen-` and its place in the order of
/// enumeration.
pub open spec fn screen_name(index: nat) -> Seq<char> {
    "screen-"@ + decimal(index)
}

/// The screen at `index` of an enumeration, as the user interface is told of
/// it.
pub open spec fn screen_info(display: Display, index: nat) -> ScreenInfoView {
    ScreenInfoView {
        x: display.x,
        y: display.y,
        width: display.width,
        height: display.height,
        id: screen_name(index),
    }
}

/// The screens of an enumeration, in its order, each named by its place.
pub fn get_all_screens(displays: &Vec<Display>) -> (screens: Vec<ScreenInfo>)
    ensures
        screens.len() == displays.len(),
        forall|i: int| 0 <= i < displays.len() ==> (#[trigger] screens[i])@ == screen_info(displays[i], i as nat),
{
    let mut screens: Vec<ScreenInfo> = Vec::new();
    let mut i: usize = 0;
    while i < displays.len()
        invariant
            i <= displays.len(),
            screens.len() == i,
            forall|k: int| 0 <= k < i ==> (#[trigger] screens[k])@ == screen_info(displays[k], k as nat),
        decreases displays.len() - i,
    {
        let display = displays[i];
        let id = String::from_str("screen-").concat(number_text(i as u64).as_str());
        screens.push(ScreenInfo { x: display.x, y: display.y, width: display.width, height: display.height, id });
        i += 1;
    }
    screens
}

/// The display at `i` is primary, and none before it is.
pub open spec fn is_first_primary(displays: Seq<Display>, i: int) -> bool {
    &&& 0 <= i < displays.len()
    &&& displays[i].is_primary
    &&& forall|j: int| 0 <= j < i ==> !(#[trigger] displays[j]).is_primary
}

/// The size of the primary display: of the first display that says it is
/// primary. `None` where no display does.
pub fn get_screen_dimensions(displays: &Vec<Display>) -> (size: Option<(u32, u32)>)
    ensures
        match size {
            Some((width, height)) => exists|i: int|
                is_first_primary(displays@, i) && displays[i].width == width && displays[i].height == height,
            None => forall|i: int| 0 <= i < displays.len() ==> !(#[trigger] displays[i]).is_primary,
        },
{
    let mut i: usize = 0;
    while i < displays.len()
        invariant
            i <= displays.len(),
            forall|j: int| 0 <= j < i ==> !(#[trigger] displays[j]).is_primary,
        decreases displays.len() - i,
    {
        if displays[i].is_primary {
            assert(is_first_primary(displays@, i as int));
            return Some((displays[i].width, displays[i].height));
        }
        i += 1;
    }
    None
}

/// The size of the first display of an enumeration. `None` where there is no
/// display.
pub fn get_primary_screen_dimensions(displays: &Vec<Display>) -> (size: Option<(u32, u32)>)
    ensures
        size == if displays.len() == 0 {
            None
        } else {
            Some((displays[0].width, displays[0].height))
        },
{
    if displays.len() == 0 {
        None
    } else {
        Some((displays[0].width, displays[0].height))
    }
}

impl Display {
    /// The display is one whose size a [`ScreenDimensions`] can hold.
    pub open spec fn measurable(self) -> bool {
        self.width <= i32::MAX && self.height <= i32::MAX
    }

    /// The display as a screen to place windows on, or `None` where its size
    /// is beyond what a [`ScreenDimensions`] can hold.
    pub fn dimensions(&self) -> (screen: Option<ScreenDimensions>)
        ensures
            match screen {
                Some(s) => self.measurable() && s.x == self.x && s.y == self.y && s.width == self.width
                    && s.height == self.height,
                None => !self.measurable(),
            },
    {
        if self.width <= 2147483647 && self.height <= 2147483647 {
            Some(ScreenDimensions { x: self.x, y: self.y, width: self.width as i32, height: self.height as i32 })
        } else {
            None
        }
    }
}

/// A window to open for editing a layout on one screen.
#[derive(Debug, Clone)]
pub struct EditorWindowPlan {
    pub label: String,
    pub title: String,
    pub screen_id: String,
    pub x: i32,
    pub y: i32,
    pub width: u32,
    pub height: u32,
    pub focused: bool,
}

/// The editor window of the screen at `index`: it covers the screen, is
/// labelled `zone-editor-` and the screen's place, carries the layout's name
/// in its title, and has the focus if it is the first.
pub open spec fn is_editor_window(
    plan: EditorWindowPlan,
    display: Display,
    index: nat,
    layout_name: Seq<char>,
) -> bool {
    &&& plan.label@ == "zone-editor-"@ + decimal(index)
    &&& plan.title@ == "Zone Editor - "@ + layout_name
    &&& plan.screen_id@ == screen_name(index)
    &&& plan.x == display.x
    &&& plan.y == display.y
    &&& plan.width == display.width
    &&& plan.height == display.height
    &&& plan.focused == (index == 0)
}

/// The windows to open for editing the layout `layout_name`: one for each
/// screen, in the order of enumeration.
pub fn create_zone_editor_windows(displays: &Vec<Display>, layout_name: &str) -> (plans: Vec<
    EditorWindowPlan,
>)
    ensures
        plans.len() == displays.len(),
        forall|i: int|
            0 <= i < displays.len() ==> is_editor_window(#[trigger] plans[i], displays[i], i as nat, layout_name@),
{
    let mut plans: Vec<EditorWindowPlan> = Vec::new();
    let mut i: usize = 0;
    while i < displays.len()
        invariant
            i <= displays.len(),
            plans.len() == i,
            forall|k: int|
                0 <= k < i ==> is_editor_window(#[trigger] plans[k], displays[k], k as nat, layout_name@),
        decreases displays.len() - i,
    {
        let display = displays[i];
        let number = number_text(i as u64);
        let plan = EditorWindowPlan {
            label: String::from_str("zone-editor-").concat(number.as_str()),
            title: String::from_str("Zone Editor - ").concat(layout_name),
            screen_id: String::from_str("screen-").concat(number.as_str()),
            x: display.x,
            y: display.y,
            width: display.width,
            height: display.height,
            focused: i == 0,
        };
        plans.push(plan);
        i += 1;
    }
    plans
}

} // verus!
