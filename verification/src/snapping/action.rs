use crate::text::str_eq;
use vstd::prelude::*;

verus! {

/// A command describing where a window should go: a fixed share of the
/// screen, an adjustment of where it is, a return to its last placement, or a
/// zone of the active layout.
#[derive(Debug, Clone, PartialEq, Eq)]
pub enum LayoutAction {
    LeftHalf,
    RightHalf,
    CenterHalf,
    TopHalf,
    BottomHalf,
    TopLeft,
    TopRight,
    BottomLeft,
    BottomRight,
    FirstThird,
    CenterThird,
    LastThird,
    FirstTwoThirds,
    LastTwoThirds,
    Maximize,
    AlmostMaximize,
    MaximizeHeight,
    Smaller,
    Larger,
    Center,
    CenterProminently,
    Restore,
    NextDisplay,
    PreviousDisplay,
    MoveLeft,
    MoveRight,
    MoveUp,
    MoveDown,
    FirstFourth,
    SecondFourth,
    ThirdFourth,
    LastFourth,
    FirstThreeFourths,
    LastThreeFourths,
    TopLeftSixth,
    TopCenterSixth,
    TopRightSixth,
    BottomLeftSixth,
    BottomCenterSixth,
    BottomRightSixth,
    TopLeftThird,
    TopRightThird,
    BottomLeftThird,
    BottomRightThird,
    ApplyZone(u32),
    ActivateLayout(String),
}

/// An action as it crosses the boundary to the user interface: its name in
/// kebab case, with the zone number or layout identifier beside it where the
/// action carries one.
#[derive(Debug, Clone)]
pub struct ActionPayload {
    pub action: String,
    pub zone_number: Option<u32>,
    pub layout_id: Option<String>,
}

/// What an [`ActionPayload`] holds, with its strings as sequences of
/// characters. Every [`LayoutAction`] has exactly one.
pub struct PayloadView {
    pub action: Seq<char>,
    pub zone_number: Option<u32>,
    pub layout_id: Option<Seq<char>>,
}

impl View for ActionPayload {
    type V = PayloadView;

    open spec fn view(&self) -> PayloadView {
        PayloadView {
            action: self.action@,
            zone_number: self.zone_number,
            layout_id: match self.layout_id {
                Some(id) => Some(id@),
                None => None,
            },
        }
    }
}

/// Why a payload names no action.
#[derive(Debug, Clone, Copy, PartialEq, Eq, Structural)]
pub enum ActionError {
    /// The payload says `apply-zone` and carries no zone number.
    MissingZoneNumber,
    /// The payload says `activate-layout` and carries no layout identifier.
    MissingLayoutId,
    /// The payload's name is that of no action.
    UnknownAction,
}

impl LayoutAction {
    /// The action's name in kebab case.
    pub open spec fn name(self) -> Seq<char> {
        match self {
            LayoutAction::LeftHalf => "left-half"@,
            LayoutAction::RightHalf => "right-half"@,
            LayoutAction::CenterHalf => "center-half"@,
            LayoutAction::TopHalf => "top-half"@,
            LayoutAction::BottomHalf => "bottom-half"@,
            LayoutAction::TopLeft => "top-left"@,
            LayoutAction::TopRight => "top-right"@,
            LayoutAction::BottomLeft => "bottom-left"@,
            LayoutAction::BottomRight => "bottom-right"@,
            LayoutAction::FirstThird => "first-third"@,
            LayoutAction::CenterThird => "center-third"@,
            LayoutAction::LastThird => "last-third"@,
            LayoutAction::FirstTwoThirds => "first-two-thirds"@,
            LayoutAction::LastTwoThirds => "last-two-thirds"@,
            LayoutAction::Maximize => "maximize"@,
            LayoutAction::AlmostMaximize => "almost-maximize"@,
            LayoutAction::MaximizeHeight => "maximize-height"@,
            LayoutAction::Smaller => "smaller"@,
            LayoutAction::Larger => "larger"@,
            LayoutAction::Center => "center"@,
            LayoutAction::CenterProminently => "center-prominently"@,
            LayoutAction::Restore => "restore"@,
            LayoutAction::NextDisplay => "next-display"@,
            LayoutAction::PreviousDisplay => "previous-display"@,
            LayoutAction::MoveLeft => "move-left"@,
            LayoutAction::MoveRight => "move-right"@,
            LayoutAction::MoveUp => "move-up"@,
            LayoutAction::MoveDown => "move-down"@,
            LayoutAction::FirstFourth => "first-fourth"@,
            LayoutAction::SecondFourth => "second-fourth"@,
            LayoutAction::ThirdFourth => "third-fourth"@,
            LayoutAction::LastFourth => "last-fourth"@,
            LayoutAction::FirstThreeFourths => "first-three-fourths"@,
            LayoutAction::LastThreeFourths => "last-three-fourths"@,
            LayoutAction::TopLeftSixth => "top-left-sixth"@,
            LayoutAction::TopCenterSixth => "top-center-sixth"@,
            LayoutAction::TopRightSixth => "top-right-sixth"@,
            LayoutAction::BottomLeftSixth => "bottom-left-sixth"@,
            LayoutAction::BottomCenterSixth => "bottom-center-sixth"@,
            LayoutAction::BottomRightSixth => "bottom-right-sixth"@,
            LayoutAction::TopLeftThird => "top-left-third"@,
            LayoutAction::TopRightThird => "top-right-third"@,
            LayoutAction::BottomLeftThird => "bottom-left-third"@,
            LayoutAction::BottomRightThird => "bottom-right-third"@,
            LayoutAction::ApplyZone(_) => "apply-zone"@,
            LayoutAction::ActivateLayout(_) => "activate-layout"@,
        }
    }

    /// The action carries no data: its name says all there is to it.
    pub open spec fn is_unit(self) -> bool {
        !(self is ApplyZone) && !(self is ActivateLayout)
    }

    /// The payload that stands for this action.
    pub open spec fn payload_view(self) -> PayloadView {
        PayloadView {
            action: self.name(),
            zone_number: match self {
                LayoutAction::ApplyZone(n) => Some(n),
                _ => None,
            },
            layout_id: match self {
                LayoutAction::ActivateLayout(id) => Some(id@),
                _ => None,
            },
        }
    }

    /// The action's name in kebab case.
    pub fn as_str(&self) -> (name: &'static str)
        ensures
            name@ == self.name(),
    {
        match self {
            LayoutAction::LeftHalf => "left-half",
            LayoutAction::RightHalf => "right-half",
            LayoutAction::CenterHalf => "center-half",
            LayoutAction::TopHalf => "top-half",
            LayoutAction::BottomHalf => "bottom-half",
            LayoutAction::TopLeft => "top-left",
            LayoutAction::TopRight => "top-right",
            LayoutAction::BottomLeft => "bottom-left",
            LayoutAction::BottomRight => "bottom-right",
            LayoutAction::FirstThird => "first-third",
            LayoutAction::CenterThird => "center-third",
            LayoutAction::LastThird => "last-third",
            LayoutAction::FirstTwoThirds => "first-two-thirds",
            LayoutAction::LastTwoThirds => "last-two-thirds",
            LayoutAction::Maximize => "maximize",
            LayoutAction::AlmostMaximize => "almost-maximize",
            LayoutAction::MaximizeHeight => "maximize-height",
            LayoutAction::Smaller => "smaller",
            LayoutAction::Larger => "larger",
            LayoutAction::Center => "center",
            LayoutAction::CenterProminently => "center-prominently",
            LayoutAction::Restore => "restore",
            LayoutAction::NextDisplay => "next-display",
            LayoutAction::PreviousDisplay => "previous-display",
            LayoutAction::MoveLeft => "move-left",
            LayoutAction::MoveRight => "move-right",
            LayoutAction::MoveUp => "move-up",
            LayoutAction::MoveDown => "move-down",
            LayoutAction::FirstFourth => "first-fourth",
            LayoutAction::SecondFourth => "second-fourth",
            LayoutAction::ThirdFourth => "third-fourth",
            LayoutAction::LastFourth => "last-fourth",
            LayoutAction::FirstThreeFourths => "first-three-fourths",
            LayoutAction::LastThreeFourths => "last-three-fourths",
            LayoutAction::TopLeftSixth => "top-left-sixth",
            LayoutAction::TopCenterSixth => "top-center-sixth",
            LayoutAction::TopRightSixth => "top-right-sixth",
            LayoutAction::BottomLeftSixth => "bottom-left-sixth",
            LayoutAction::BottomCenterSixth => "bottom-center-sixth",
            LayoutAction::BottomRightSixth => "bottom-right-sixth",
            LayoutAction::TopLeftThird => "top-left-third",
            LayoutAction::TopRightThird => "top-right-third",
            LayoutAction::BottomLeftThird => "bottom-left-third",
            LayoutAction::BottomRightThird => "bottom-right-third",
            LayoutAction::ApplyZone(_) => "apply-zone",
            LayoutAction::ActivateLayout(_) => "activate-layout",
        }
    }

    /// The data-free action with the given name, if there is one.
    pub fn from_name(name: &str) -> (action: Option<LayoutAction>)
        ensures
            match action {
                Some(a) => a.is_unit() && a.name() == name@,
                None => !is_unit_name(name@),
            },
    {
        if str_eq(name, "left-half") {
            Some(LayoutAction::LeftHalf)
        } else if str_eq(name, "right-half") {
            Some(LayoutAction::RightHalf)
        } else if str_eq(name, "center-half") {
            Some(LayoutAction::CenterHalf)
        } else if str_eq(name, "top-half") {
            Some(LayoutAction::TopHalf)
        } else if str_eq(name, "bottom-half") {
            Some(LayoutAction::BottomHalf)
        } else if str_eq(name, "top-left") {
            Some(LayoutAction::TopLeft)
        } else if str_eq(name, "top-right") {
            Some(LayoutAction::TopRight)
        } else if str_eq(name, "bottom-left") {
            Some(LayoutAction::BottomLeft)
        } else if str_eq(name, "bottom-right") {
            Some(LayoutAction::BottomRight)
        } else if str_eq(name, "first-third") {
            Some(LayoutAction::FirstThird)
        } else if str_eq(name, "center-third") {
            Some(LayoutAction::CenterThird)
        } else if str_eq(name, "last-third") {
            Some(LayoutAction::LastThird)
        } else if str_eq(name, "first-two-thirds") {
            Some(LayoutAction::FirstTwoThirds)
        } else if str_eq(name, "last-two-thirds") {
            Some(LayoutAction::LastTwoThirds)
        } else if str_eq(name, "maximize") {
            Some(LayoutAction::Maximize)
        } else if str_eq(name, "almost-maximize") {
            Some(LayoutAction::AlmostMaximize)
        } else if str_eq(name, "maximize-height") {
            Some(LayoutAction::MaximizeHeight)
        } else if str_eq(name, "smaller") {
            Some(LayoutAction::Smaller)
        } else if str_eq(name, "larger") {
            Some(LayoutAction::Larger)
        } else if str_eq(name, "center") {
            Some(LayoutAction::Center)
        } else if str_eq(name, "center-prominently") {
            Some(LayoutAction::CenterProminently)
        } else if str_eq(name, "restore") {
            Some(LayoutAction::Restore)
        } else if str_eq(name, "next-display") {
            Some(LayoutAction::NextDisplay)
        } else if str_eq(name, "previous-display") {
            Some(LayoutAction::PreviousDisplay)
        } else if str_eq(name, "move-left") {
            Some(LayoutAction::MoveLeft)
        } else if str_eq(name, "move-right") {
            Some(LayoutAction::MoveRight)
        } else if str_eq(name, "move-up") {
            Some(LayoutAction::MoveUp)
        } else if str_eq(name, "move-down") {
            Some(LayoutAction::MoveDown)
        } else if str_eq(name, "first-fourth") {
            Some(LayoutAction::FirstFourth)
        } else if str_eq(name, "second-fourth") {
            Some(LayoutAction::SecondFourth)
        } else if str_eq(name, "third-fourth") {
            Some(LayoutAction::ThirdFourth)
        } else if str_eq(name, "last-fourth") {
            Some(LayoutAction::LastFourth)
        } else if str_eq(name, "first-three-fourths") {
            Some(LayoutAction::FirstThreeFourths)
        } else if str_eq(name, "last-three-fourths") {
            Some(LayoutAction::LastThreeFourths)
        } else if str_eq(name, "top-left-sixth") {
            Some(LayoutAction::TopLeftSixth)
        } else if str_eq(name, "top-center-sixth") {
            Some(LayoutAction::TopCenterSixth)
        } else if str_eq(name, "top-right-sixth") {
            Some(LayoutAction::TopRightSixth)
        } else if str_eq(name, "bottom-left-sixth") {
            Some(LayoutAction::BottomLeftSixth)
        } else if str_eq(name, "bottom-center-sixth") {
            Some(LayoutAction::BottomCenterSixth)
        } else if str_eq(name, "bottom-right-sixth") {
            Some(LayoutAction::BottomRightSixth)
        } else if str_eq(name, "top-left-third") {
            Some(LayoutAction::TopLeftThird)
        } else if str_eq(name, "top-right-third") {
            Some(LayoutAction::TopRightThird)
        } else if str_eq(name, "bottom-left-third") {
            Some(LayoutAction::BottomLeftThird)
        } else if str_eq(name, "bottom-right-third") {
            Some(LayoutAction::BottomRightThird)
        } else {
            None
        }
    }
}

/// What `serde_json` reads from `text` where it is asked for one JSON string
/// and nothing else: the characters the string stands for, with its escapes
/// resolved, or `None` where `text` is not one JSON string.
pub uninterp spec fn json_string_value(text: Seq<char>) -> Option<Seq<char>>;

/// `serde_json::from_str::<String>`: reads `text` as one JSON string.
///
/// Not proved: that the result is a function of the text alone, which is what
/// naming it claims. The parser reads nothing but its argument.
#[verifier::external_body]
fn read_json_string(text: &str) -> (value: Option<String>)
    ensures
        match value {
            Some(s) => json_string_value(text@) == Some(s@),
            None => json_string_value(text@) is None,
        },
{
    serde_json::from_str::<String>(text).ok()
}

/// `name` between double quotes: the text in which a name is read as a JSON
/// string.
pub open spec fn quoted(name: Seq<char>) -> Seq<char> {
    "\""@ + name + "\""@
}

/// What a payload resolves to, given what its name reads as when it is taken
/// as the inside of a JSON string.
///
/// `apply-zone` and `activate-layout` are taken by their letters and ask for
/// the number or the identifier beside them. Any other name is read as a JSON
/// string first, and must then be the name of an action that carries no data.
pub open spec fn resolution(payload: PayloadView, decoded: Option<Seq<char>>) -> Result<
    PayloadView,
    ActionError,
> {
    if payload.action == "apply-zone"@ {
        match payload.zone_number {
            Some(number) => Ok(
                PayloadView { action: "apply-zone"@, zone_number: Some(number), layout_id: None },
            ),
            None => Err(ActionError::MissingZoneNumber),
        }
    } else if payload.action == "activate-layout"@ {
        match payload.layout_id {
            Some(id) => Ok(
                PayloadView { action: "activate-layout"@, zone_number: None, layout_id: Some(id) },
            ),
            None => Err(ActionError::MissingLayoutId),
        }
    } else {
        match decoded {
            Some(name) => if is_unit_name(name) {
                Ok(PayloadView { action: name, zone_number: None, layout_id: None })
            } else {
                Err(ActionError::UnknownAction)
            },
            None => Err(ActionError::UnknownAction),
        }
    }
}

/// The view of what a conversion to an action gave.
pub open spec fn resolved(result: Result<LayoutAction, ActionError>) -> Result<PayloadView, ActionError> {
    match result {
        Ok(action) => Ok(action.payload_view()),
        Err(e) => Err(e),
    }
}

impl LayoutAction {
    /// The action that `payload` stands for, given in `decoded` what the
    /// payload's name reads as when taken as the inside of a JSON string.
    pub fn resolve(payload: ActionPayload, decoded: Option<String>) -> (result: Result<
        LayoutAction,
        ActionError,
    >)
        ensures
            resolved(result) == resolution(
                payload@,
                match decoded {
                    Some(s) => Some(s@),
                    None => None,
                },
            ),
    {
        if str_eq(payload.action.as_str(), "apply-zone") {
            match payload.zone_number {
                Some(number) => Ok(LayoutAction::ApplyZone(number)),
                None => Err(ActionError::MissingZoneNumber),
            }
        } else if str_eq(payload.action.as_str(), "activate-layout") {
            match payload.layout_id {
                Some(id) => Ok(LayoutAction::ActivateLayout(id)),
                None => Err(ActionError::MissingLayoutId),
            }
        } else {
            match decoded {
                Some(name) => match LayoutAction::from_name(name.as_str()) {
                    Some(action) => Ok(action),
                    None => Err(ActionError::UnknownAction),
                },
                None => Err(ActionError::UnknownAction),
            }
        }
    }

    /// The action that `payload` stands for.
    ///
    /// A payload named `apply-zone` or `activate-layout` needs its number or
    /// identifier. Any other name is read as the inside of a JSON string and
    /// must then name an action that carries no data.
    pub fn try_from(payload: ActionPayload) -> (result: Result<LayoutAction, ActionError>)
        ensures
            resolved(result) == resolution(payload@, json_string_value(quoted(payload.action@))),
    {
        let text = String::from_str("\"").concat(payload.action.as_str()).concat("\"");
        let decoded = read_json_string(text.as_str());
        LayoutAction::resolve(payload, decoded)
    }
}

impl ActionPayload {
    /// The payload that stands for `action`. Every action has one.
    pub fn try_from(action: LayoutAction) -> (result: Result<ActionPayload, ActionError>)
        ensures
            result matches Ok(payload) && payload@ == action.payload_view(),
    {
        let name = String::from_str(action.as_str());
        match action {
            LayoutAction::ApplyZone(number) => Ok(
                ActionPayload { action: name, zone_number: Some(number), layout_id: None },
            ),
            LayoutAction::ActivateLayout(id) => Ok(
                ActionPayload { action: name, zone_number: None, layout_id: Some(id) },
            ),
            _ => Ok(ActionPayload { action: name, zone_number: None, layout_id: None }),
        }
    }
}

impl ActionError {
    /// The error in words.
    pub fn message(&self) -> (text: &'static str)
        ensures
            text@ == match *self {
                ActionError::MissingZoneNumber => "apply-zone action requires zone_number"@,
                ActionError::MissingLayoutId => "activate-layout action requires layout_id"@,
                ActionError::UnknownAction => "Unknown action"@,
            },
    {
        match self {
            ActionError::MissingZoneNumber => "apply-zone action requires zone_number",
            ActionError::MissingLayoutId => "activate-layout action requires layout_id",
            ActionError::UnknownAction => "Unknown action",
        }
    }
}

/// A payload made from an action resolves to that action again, once its
/// name has been read as itself.
pub proof fn payload_resolves_to_its_action(action: LayoutAction)
    ensures
        resolution(action.payload_view(), Some(action.name())) == Ok::<PayloadView, ActionError>(
            action.payload_view(),
        ),
{
    name_tells_kind(action);
    if action.is_unit() {
        assert(is_unit_name(action.name()));
    }
}

/// `name` is the name of an action that carries no data.
pub open spec fn is_unit_name(name: Seq<char>) -> bool {
    exists|a: LayoutAction| #[trigger] a.is_unit() && a.name() == name
}

/// The length of a name and three of its characters: enough to tell the
/// names of the actions apart.
spec fn shape(name: Seq<char>) -> (nat, char, char, char) {
    (
        name.len(),
        name[0],
        if name.len() > 7 { name[7] } else { ' ' },
        if name.len() > 13 { name[13] } else { ' ' },
    )
}

spec fn shape_of(action: LayoutAction) -> (nat, char, char, char) {
    match action {
        LayoutAction::LeftHalf => (9, 'l', 'l', ' '),
        LayoutAction::RightHalf => (10, 'r', 'a', ' '),
        LayoutAction::CenterHalf => (11, 'c', 'h', ' '),
        LayoutAction::TopHalf => (8, 't', 'f', ' '),
        LayoutAction::BottomHalf => (11, 'b', 'h', ' '),
        LayoutAction::TopLeft => (8, 't', 't', ' '),
        LayoutAction::TopRight => (9, 't', 'h', ' '),
        LayoutAction::BottomLeft => (11, 'b', 'l', ' '),
        LayoutAction::BottomRight => (12, 'b', 'r', ' '),
        LayoutAction::FirstThird => (11, 'f', 'h', ' '),
        LayoutAction::CenterThird => (12, 'c', 't', ' '),
        LayoutAction::LastThird => (10, 'l', 'i', ' '),
        LayoutAction::FirstTwoThirds => (16, 'f', 'w', 'r'),
        LayoutAction::LastTwoThirds => (15, 'l', 'o', 'd'),
        LayoutAction::Maximize => (8, 'm', 'e', ' '),
        LayoutAction::AlmostMaximize => (15, 'a', 'm', 'z'),
        LayoutAction::MaximizeHeight => (15, 'm', 'e', 'h'),
        LayoutAction::Smaller => (7, 's', ' ', ' '),
        LayoutAction::Larger => (6, 'l', ' ', ' '),
        LayoutAction::Center => (6, 'c', ' ', ' '),
        LayoutAction::CenterProminently => (18, 'c', 'p', 'e'),
        LayoutAction::Restore => (7, 'r', ' ', ' '),
        LayoutAction::NextDisplay => (12, 'n', 's', ' '),
        LayoutAction::PreviousDisplay => (16, 'p', 's', 'l'),
        LayoutAction::MoveLeft => (9, 'm', 'f', ' '),
        LayoutAction::MoveRight => (10, 'm', 'g', ' '),
        LayoutAction::MoveUp => (7, 'm', ' ', ' '),
        LayoutAction::MoveDown => (9, 'm', 'w', ' '),
        LayoutAction::FirstFourth => (12, 'f', 'o', ' '),
        LayoutAction::SecondFourth => (13, 's', 'f', ' '),
        LayoutAction::ThirdFourth => (12, 't', 'o', ' '),
        LayoutAction::LastFourth => (11, 'l', 'u', ' '),
        LayoutAction::FirstThreeFourths => (19, 'f', 'h', 'o'),
        LayoutAction::LastThreeFourths => (18, 'l', 'r', 'u'),
        LayoutAction::TopLeftSixth => (14, 't', 't', 'h'),
        LayoutAction::TopCenterSixth => (16, 't', 't', 'x'),
        LayoutAction::TopRightSixth => (15, 't', 'h', 't'),
        LayoutAction::BottomLeftSixth => (17, 'b', 'l', 'i'),
        LayoutAction::BottomCenterSixth => (19, 'b', 'c', '-'),
        LayoutAction::BottomRightSixth => (18, 'b', 'r', 's'),
        LayoutAction::TopLeftThird => (14, 't', 't', 'd'),
        LayoutAction::TopRightThird => (15, 't', 'h', 'r'),
        LayoutAction::BottomLeftThird => (17, 'b', 'l', 'h'),
        LayoutAction::BottomRightThird => (18, 'b', 'r', 't'),
        LayoutAction::ApplyZone(_) => (10, 'a', 'o', ' '),
        LayoutAction::ActivateLayout(_) => (15, 'a', 'e', 'u'),
    }
}

proof fn name_has_shape(action: LayoutAction)
    ensures
        shape(action.name()) == shape_of(action),
{
    reveal_strlit("left-half");
    reveal_strlit("right-half");
    reveal_strlit("center-half");
    reveal_strlit("top-half");
    reveal_strlit("bottom-half");
    reveal_strlit("top-left");
    reveal_strlit("top-right");
    reveal_strlit("bottom-left");
    reveal_strlit("bottom-right");
    reveal_strlit("first-third");
    reveal_strlit("center-third");
    reveal_strlit("last-third");
    reveal_strlit("first-two-thirds");
    reveal_strlit("last-two-thirds");
    reveal_strlit("maximize");
    reveal_strlit("almost-maximize");
    reveal_strlit("maximize-height");
    reveal_strlit("smaller");
    reveal_strlit("larger");
    reveal_strlit("center");
    reveal_strlit("center-prominently");
    reveal_strlit("restore");
    reveal_strlit("next-display");
    reveal_strlit("previous-display");
    reveal_strlit("move-left");
    reveal_strlit("move-right");
    reveal_strlit("move-up");
    reveal_strlit("move-down");
    reveal_strlit("first-fourth");
    reveal_strlit("second-fourth");
    reveal_strlit("third-fourth");
    reveal_strlit("last-fourth");
    reveal_strlit("first-three-fourths");
    reveal_strlit("last-three-fourths");
    reveal_strlit("top-left-sixth");
    reveal_strlit("top-center-sixth");
    reveal_strlit("top-right-sixth");
    reveal_strlit("bottom-left-sixth");
    reveal_strlit("bottom-center-sixth");
    reveal_strlit("bottom-right-sixth");
    reveal_strlit("top-left-third");
    reveal_strlit("top-right-third");
    reveal_strlit("bottom-left-third");
    reveal_strlit("bottom-right-third");
    reveal_strlit("apply-zone");
    reveal_strlit("activate-layout");
}

/// Only the two actions that carry data have the names of those two.
pub proof fn name_tells_kind(action: LayoutAction)
    ensures
        action.name() == "apply-zone"@ <==> action is ApplyZone,
        action.name() == "activate-layout"@ <==> action is ActivateLayout,
{
    name_has_shape(action);
    reveal_strlit("apply-zone");
    reveal_strlit("activate-layout");
    assert(shape("apply-zone"@) == (10nat, 'a', 'o', ' '));
    assert(shape("activate-layout"@) == (15nat, 'a', 'e', 'u'));
}

/// No two kinds of action share a name.
pub proof fn names_are_distinct(a: LayoutAction, b: LayoutAction)
    requires
        a.name() == b.name(),
    ensures
        a.is_unit() == b.is_unit(),
        a.is_unit() ==> a == b,
        a is ApplyZone == b is ApplyZone,
{
    name_has_shape(a);
    name_has_shape(b);
}

} // verus!
