//! Gesture triggers in niri's property form, e.g. `TouchSwipe fingers=3
//! direction="up"` or `TouchEdge edge="top" zone="left"`.

use vstd::prelude::*;
use crate::text::{chars_of, chars_eq_str, str_eq, push_decimal, decimal, string_of};
use crate::document::{
    Node, NodeView, Entry, EntryView, Value, ValueView, Style, prop_value, opt_value_view,
};

verus! {

broadcast use vstd::string::group_string_axioms;

/// Fewest fingers a multi-finger gesture may use.
pub const MIN_FINGERS: u8 = 3;

/// Most fingers a multi-finger gesture may use.
pub const MAX_FINGERS: u8 = 10;

/// A finger count a gesture may use.
pub open spec fn valid_fingers(f: u8) -> bool {
    MIN_FINGERS <= f <= MAX_FINGERS
}

// ---------------------------------------------------------------------------
// Directions, edges and zones
// ---------------------------------------------------------------------------

#[derive(Debug, Clone, Copy, PartialEq, Eq, Hash, Structural)]
pub enum SwipeDir {
    Up,
    Down,
    Left,
    Right,
}

pub open spec fn swipe_kdl(d: SwipeDir) -> Seq<char> {
    match d {
        SwipeDir::Up => "up"@,
        SwipeDir::Down => "down"@,
        SwipeDir::Left => "left"@,
        SwipeDir::Right => "right"@,
    }
}

pub open spec fn swipe_display(d: SwipeDir) -> Seq<char> {
    match d {
        SwipeDir::Up => "Up"@,
        SwipeDir::Down => "Down"@,
        SwipeDir::Left => "Left"@,
        SwipeDir::Right => "Right"@,
    }
}

pub open spec fn swipe_parse(s: Seq<char>) -> Option<SwipeDir> {
    if s == "up"@ {
        Some(SwipeDir::Up)
    } else if s == "down"@ {
        Some(SwipeDir::Down)
    } else if s == "left"@ {
        Some(SwipeDir::Left)
    } else if s == "right"@ {
        Some(SwipeDir::Right)
    } else {
        None
    }
}

/// Entry `i` of `SwipeDir::ALL`, counting round.
pub open spec fn swipe_at(i: int) -> SwipeDir {
    if i % 4 == 0 {
        SwipeDir::Up
    } else if i % 4 == 1 {
        SwipeDir::Down
    } else if i % 4 == 2 {
        SwipeDir::Left
    } else {
        SwipeDir::Right
    }
}

/// The position of a direction in `SwipeDir::ALL`.
pub open spec fn swipe_index(d: SwipeDir) -> usize {
    match d {
        SwipeDir::Up => 0,
        SwipeDir::Down => 1,
        SwipeDir::Left => 2,
        SwipeDir::Right => 3,
    }
}

impl SwipeDir {
    /// Every direction, in menu order.
    pub const ALL: [SwipeDir; 4] = [SwipeDir::Up, SwipeDir::Down, SwipeDir::Left, SwipeDir::Right];

    /// The KDL keyword for this direction.
    pub fn as_kdl(self) -> (r: &'static str)
        ensures
            r@ == swipe_kdl(self),
    {
        match self {
            Self::Up => "up",
            Self::Down => "down",
            Self::Left => "left",
            Self::Right => "right",
        }
    }

    /// The label shown to the user.
    pub fn display(self) -> (r: &'static str)
        ensures
            r@ == swipe_display(self),
    {
        match self {
            Self::Up => "Up",
            Self::Down => "Down",
            Self::Left => "Left",
            Self::Right => "Right",
        }
    }

    /// The direction whose KDL keyword is `s`.
    pub fn parse(s: &str) -> (r: Option<Self>)
        ensures
            r == swipe_parse(s@),
    {
        if str_eq(s, "up") {
            Some(Self::Up)
        } else if str_eq(s, "down") {
            Some(Self::Down)
        } else if str_eq(s, "left") {
            Some(Self::Left)
        } else if str_eq(s, "right") {
            Some(Self::Right)
        } else {
            None
        }
    }

    /// Entry `i` of [`SwipeDir::ALL`], counting round.
    pub fn from_index(i: usize) -> (r: Self)
        ensures
            swipe_index(r) == i % 4,
            r == swipe_at(i as int),
    {
        match i % 4 {
            0 => Self::Up,
            1 => Self::Down,
            2 => Self::Left,
            _ => Self::Right,
        }
    }

    /// The position of this direction in [`SwipeDir::ALL`].
    pub fn index(self) -> (r: usize)
        ensures
            r == swipe_index(self),
    {
        match self {
            Self::Up => 0,
            Self::Down => 1,
            Self::Left => 2,
            Self::Right => 3,
        }
    }
}

#[derive(Debug, Clone, Copy, PartialEq, Eq, Hash, Structural)]
pub enum PinchDir {
    In,
    Out,
}

pub open spec fn pinch_kdl(d: PinchDir) -> Seq<char> {
    match d {
        PinchDir::In => "in"@,
        PinchDir::Out => "out"@,
    }
}

pub open spec fn pinch_display(d: PinchDir) -> Seq<char> {
    match d {
        PinchDir::In => "In"@,
        PinchDir::Out => "Out"@,
    }
}

pub open spec fn pinch_parse(s: Seq<char>) -> Option<PinchDir> {
    if s == "in"@ {
        Some(PinchDir::In)
    } else if s == "out"@ {
        Some(PinchDir::Out)
    } else {
        None
    }
}

/// Entry `i` of `PinchDir::ALL`, counting round.
pub open spec fn pinch_at(i: int) -> PinchDir {
    if i % 2 == 0 {
        PinchDir::In
    } else {
        PinchDir::Out
    }
}

pub open spec fn pinch_index(d: PinchDir) -> usize {
    match d {
        PinchDir::In => 0,
        PinchDir::Out => 1,
    }
}

impl PinchDir {
    /// Both directions, in menu order.
    pub const ALL: [PinchDir; 2] = [PinchDir::In, PinchDir::Out];

    pub fn as_kdl(self) -> (r: &'static str)
        ensures
            r@ == pinch_kdl(self),
    {
        match self {
            Self::In => "in",
            Self::Out => "out",
        }
    }

    pub fn display(self) -> (r: &'static str)
        ensures
            r@ == pinch_display(self),
    {
        match self {
            Self::In => "In",
            Self::Out => "Out",
        }
    }

    pub fn parse(s: &str) -> (r: Option<Self>)
        ensures
            r == pinch_parse(s@),
    {
        if str_eq(s, "in") {
            Some(Self::In)
        } else if str_eq(s, "out") {
            Some(Self::Out)
        } else {
            None
        }
    }

    /// Entry `i` of [`PinchDir::ALL`], counting round.
    pub fn from_index(i: usize) -> (r: Self)
        ensures
            pinch_index(r) == i % 2,
            r == pinch_at(i as int),
    {
        if i % 2 == 0 {
            Self::In
        } else {
            Self::Out
        }
    }

    /// The position of this direction in [`PinchDir::ALL`].
    pub fn index(self) -> (r: usize)
        ensures
            r == pinch_index(self),
    {
        match self {
            Self::In => 0,
            Self::Out => 1,
        }
    }
}

#[derive(Debug, Clone, Copy, PartialEq, Eq, Hash, Structural)]
pub enum RotateDir {
    Cw,
    Ccw,
}

pub open spec fn rotate_kdl(d: RotateDir) -> Seq<char> {
    match d {
        RotateDir::Cw => "cw"@,
        RotateDir::Ccw => "ccw"@,
    }
}

pub open spec fn rotate_display(d: RotateDir) -> Seq<char> {
    match d {
        RotateDir::Cw => "Clockwise"@,
        RotateDir::Ccw => "Counter-Clockwise"@,
    }
}

pub open spec fn rotate_parse(s: Seq<char>) -> Option<RotateDir> {
    if s == "cw"@ {
        Some(RotateDir::Cw)
    } else if s == "ccw"@ {
        Some(RotateDir::Ccw)
    } else {
        None
    }
}

/// Entry `i` of `RotateDir::ALL`, counting round.
pub open spec fn rotate_at(i: int) -> RotateDir {
    if i % 2 == 0 {
        RotateDir::Cw
    } else {
        RotateDir::Ccw
    }
}

pub open spec fn rotate_index(d: RotateDir) -> usize {
    match d {
        RotateDir::Cw => 0,
        RotateDir::Ccw => 1,
    }
}

impl RotateDir {
    /// Both directions, in menu order.
    pub const ALL: [RotateDir; 2] = [RotateDir::Cw, RotateDir::Ccw];

    pub fn as_kdl(self) -> (r: &'static str)
        ensures
            r@ == rotate_kdl(self),
    {
        match self {
            Self::Cw => "cw",
            Self::Ccw => "ccw",
        }
    }

    pub fn display(self) -> (r: &'static str)
        ensures
            r@ == rotate_display(self),
    {
        match self {
            Self::Cw => "Clockwise",
            Self::Ccw => "Counter-Clockwise",
        }
    }

    pub fn parse(s: &str) -> (r: Option<Self>)
        ensures
            r == rotate_parse(s@),
    {
        if str_eq(s, "cw") {
            Some(Self::Cw)
        } else if str_eq(s, "ccw") {
            Some(Self::Ccw)
        } else {
            None
        }
    }

    /// Entry `i` of [`RotateDir::ALL`], counting round.
    pub fn from_index(i: usize) -> (r: Self)
        ensures
            rotate_index(r) == i % 2,
            r == rotate_at(i as int),
    {
        if i % 2 == 0 {
            Self::Cw
        } else {
            Self::Ccw
        }
    }

    /// The position of this direction in [`RotateDir::ALL`].
    pub fn index(self) -> (r: usize)
        ensures
            r == rotate_index(self),
    {
        match self {
            Self::Cw => 0,
            Self::Ccw => 1,
        }
    }
}

#[derive(Debug, Clone, Copy, PartialEq, Eq, Hash, Structural)]
pub enum Edge {
    Left,
    Right,
    Top,
    Bottom,
}

pub open spec fn edge_kdl(e: Edge) -> Seq<char> {
    match e {
        Edge::Left => "left"@,
        Edge::Right => "right"@,
        Edge::Top => "top"@,
        Edge::Bottom => "bottom"@,
    }
}

pub open spec fn edge_display(e: Edge) -> Seq<char> {
    match e {
        Edge::Left => "Left"@,
        Edge::Right => "Right"@,
        Edge::Top => "Top"@,
        Edge::Bottom => "Bottom"@,
    }
}

pub open spec fn edge_parse(s: Seq<char>) -> Option<Edge> {
    if s == "left"@ {
        Some(Edge::Left)
    } else if s == "right"@ {
        Some(Edge::Right)
    } else if s == "top"@ {
        Some(Edge::Top)
    } else if s == "bottom"@ {
        Some(Edge::Bottom)
    } else {
        None
    }
}

/// Entry `i` of `Edge::ALL`, counting round.
pub open spec fn edge_at(i: int) -> Edge {
    if i % 4 == 0 {
        Edge::Left
    } else if i % 4 == 1 {
        Edge::Right
    } else if i % 4 == 2 {
        Edge::Top
    } else {
        Edge::Bottom
    }
}

pub open spec fn edge_index(e: Edge) -> usize {
    match e {
        Edge::Left => 0,
        Edge::Right => 1,
        Edge::Top => 2,
        Edge::Bottom => 3,
    }
}

/// Top and bottom edges run horizontally; their zones are named
/// left/center/right.
pub open spec fn is_horizontal(e: Edge) -> bool {
    e == Edge::Top || e == Edge::Bottom
}

impl Edge {
    /// Every edge, in menu order.
    pub const ALL: [Edge; 4] = [Edge::Left, Edge::Right, Edge::Top, Edge::Bottom];

    pub fn as_kdl(self) -> (r: &'static str)
        ensures
            r@ == edge_kdl(self),
    {
        match self {
            Self::Left => "left",
            Self::Right => "right",
            Self::Top => "top",
            Self::Bottom => "bottom",
        }
    }

    pub fn display(self) -> (r: &'static str)
        ensures
            r@ == edge_display(self),
    {
        match self {
            Self::Left => "Left",
            Self::Right => "Right",
            Self::Top => "Top",
            Self::Bottom => "Bottom",
        }
    }

    pub fn parse(s: &str) -> (r: Option<Self>)
        ensures
            r == edge_parse(s@),
    {
        if str_eq(s, "left") {
            Some(Self::Left)
        } else if str_eq(s, "right") {
            Some(Self::Right)
        } else if str_eq(s, "top") {
            Some(Self::Top)
        } else if str_eq(s, "bottom") {
            Some(Self::Bottom)
        } else {
            None
        }
    }

    /// Entry `i` of [`Edge::ALL`], counting round.
    pub fn from_index(i: usize) -> (r: Self)
        ensures
            edge_index(r) == i % 4,
            r == edge_at(i as int),
    {
        match i % 4 {
            0 => Self::Left,
            1 => Self::Right,
            2 => Self::Top,
            _ => Self::Bottom,
        }
    }

    /// The position of this edge in [`Edge::ALL`].
    pub fn index(self) -> (r: usize)
        ensures
            r == edge_index(self),
    {
        match self {
            Self::Left => 0,
            Self::Right => 1,
            Self::Top => 2,
            Self::Bottom => 3,
        }
    }
}

/// Which third of an edge a touch landed in. The perpendicular axis of the
/// edge is split into thirds; the KDL vocabulary rotates per edge axis
/// (Top/Bottom take left|center|right; Left/Right take top|center|bottom).
#[derive(Debug, Clone, Copy, PartialEq, Eq, Hash, Structural)]
pub enum EdgeZone {
    Start,
    Center,
    End,
}

pub open spec fn zone_kdl(z: EdgeZone, e: Edge) -> Seq<char> {
    if is_horizontal(e) {
        match z {
            EdgeZone::Start => "left"@,
            EdgeZone::Center => "center"@,
            EdgeZone::End => "right"@,
        }
    } else {
        match z {
            EdgeZone::Start => "top"@,
            EdgeZone::Center => "center"@,
            EdgeZone::End => "bottom"@,
        }
    }
}

pub open spec fn zone_display(z: EdgeZone, e: Edge) -> Seq<char> {
    if is_horizontal(e) {
        match z {
            EdgeZone::Start => "Left"@,
            EdgeZone::Center => "Center"@,
            EdgeZone::End => "Right"@,
        }
    } else {
        match z {
            EdgeZone::Start => "Top"@,
            EdgeZone::Center => "Center"@,
            EdgeZone::End => "Bottom"@,
        }
    }
}

pub open spec fn zone_parse(e: Edge, s: Seq<char>) -> Option<EdgeZone> {
    if is_horizontal(e) {
        if s == "left"@ {
            Some(EdgeZone::Start)
        } else if s == "center"@ {
            Some(EdgeZone::Center)
        } else if s == "right"@ {
            Some(EdgeZone::End)
        } else {
            None
        }
    } else {
        if s == "top"@ {
            Some(EdgeZone::Start)
        } else if s == "center"@ {
            Some(EdgeZone::Center)
        } else if s == "bottom"@ {
            Some(EdgeZone::End)
        } else {
            None
        }
    }
}

/// Entry `i` of `EdgeZone::ALL`, counting round.
pub open spec fn zone_at(i: int) -> EdgeZone {
    if i % 3 == 0 {
        EdgeZone::Start
    } else if i % 3 == 1 {
        EdgeZone::Center
    } else {
        EdgeZone::End
    }
}

pub open spec fn zone_index(z: EdgeZone) -> usize {
    match z {
        EdgeZone::Start => 0,
        EdgeZone::Center => 1,
        EdgeZone::End => 2,
    }
}

impl EdgeZone {
    /// Every zone, in menu order.
    pub const ALL: [EdgeZone; 3] = [EdgeZone::Start, EdgeZone::Center, EdgeZone::End];

    /// The lowercased KDL identifier that niri expects for this
    /// (edge, zone) pair. The vocabulary rotates per axis.
    pub fn as_kdl(self, edge: Edge) -> (r: &'static str)
        ensures
            r@ == zone_kdl(self, edge),
    {
        match (edge, self) {
            (Edge::Top, Self::Start) | (Edge::Bottom, Self::Start) => "left",
            (Edge::Top, Self::Center) | (Edge::Bottom, Self::Center) => "center",
            (Edge::Top, Self::End) | (Edge::Bottom, Self::End) => "right",
            (Edge::Left, Self::Start) | (Edge::Right, Self::Start) => "top",
            (Edge::Left, Self::Center) | (Edge::Right, Self::Center) => "center",
            (Edge::Left, Self::End) | (Edge::Right, Self::End) => "bottom",
        }
    }

    pub fn display(self, edge: Edge) -> (r: &'static str)
        ensures
            r@ == zone_display(self, edge),
    {
        match (edge, self) {
            (Edge::Top, Self::Start) | (Edge::Bottom, Self::Start) => "Left",
            (Edge::Top, Self::Center) | (Edge::Bottom, Self::Center) => "Center",
            (Edge::Top, Self::End) | (Edge::Bottom, Self::End) => "Right",
            (Edge::Left, Self::Start) | (Edge::Right, Self::Start) => "Top",
            (Edge::Left, Self::Center) | (Edge::Right, Self::Center) => "Center",
            (Edge::Left, Self::End) | (Edge::Right, Self::End) => "Bottom",
        }
    }

    /// Inverse of `as_kdl`: given the edge and the KDL zone keyword,
    /// return the abstract zone. Returns None on invalid combinations.
    pub fn parse(edge: Edge, s: &str) -> (r: Option<Self>)
        ensures
            r == zone_parse(edge, s@),
    {
        match edge {
            Edge::Top | Edge::Bottom => {
                if str_eq(s, "left") {
                    Some(Self::Start)
                } else if str_eq(s, "center") {
                    Some(Self::Center)
                } else if str_eq(s, "right") {
                    Some(Self::End)
                } else {
                    None
                }
            },
            Edge::Left | Edge::Right => {
                if str_eq(s, "top") {
                    Some(Self::Start)
                } else if str_eq(s, "center") {
                    Some(Self::Center)
                } else if str_eq(s, "bottom") {
                    Some(Self::End)
                } else {
                    None
                }
            },
        }
    }

    /// Entry `i` of [`EdgeZone::ALL`], counting round.
    pub fn from_index(i: usize) -> (r: Self)
        ensures
            zone_index(r) == i % 3,
            r == zone_at(i as int),
    {
        match i % 3 {
            0 => Self::Start,
            1 => Self::Center,
            _ => Self::End,
        }
    }

    /// The position of this zone in [`EdgeZone::ALL`].
    pub fn index(self) -> (r: usize)
        ensures
            r == zone_index(self),
    {
        match self {
            Self::Start => 0,
            Self::Center => 1,
            Self::End => 2,
        }
    }
}


// ---------------------------------------------------------------------------
// Structured gesture trigger
// ---------------------------------------------------------------------------
//
// Each variant maps 1:1 to a KDL bind node of the shape:
//
//   TouchSwipe    fingers=3 direction="up"                { ... }
//   TouchPinch    fingers=4 direction="in"                { ... }
//   TouchRotate   fingers=5 direction="cw"                { ... }
//   TouchEdge     edge="left"                             { ... }
//   TouchEdge     edge="top" zone="left"                  { ... }
//   TouchpadSwipe fingers=3 direction="up"                { ... }

#[derive(Debug, Clone, Copy, PartialEq, Eq, Hash, Structural)]
pub enum Trigger {
    TouchSwipe { fingers: u8, direction: SwipeDir },
    TouchPinch { fingers: u8, direction: PinchDir },
    TouchRotate { fingers: u8, direction: RotateDir },
    TouchEdge { edge: Edge, zone: Option<EdgeZone> },
    TouchTap { fingers: u8 },
    TouchTapHoldDrag { fingers: u8, direction: Option<SwipeDir> },
    TouchpadSwipe { fingers: u8, direction: SwipeDir },
    TouchpadTapHold { fingers: u8 },
    TouchpadTapHoldDrag { fingers: u8 },
}

/// The bare KDL node name of a trigger.
pub open spec fn spec_kdl_family(t: Trigger) -> Seq<char> {
    match t {
        Trigger::TouchSwipe { .. } => "TouchSwipe"@,
        Trigger::TouchPinch { .. } => "TouchPinch"@,
        Trigger::TouchRotate { .. } => "TouchRotate"@,
        Trigger::TouchEdge { .. } => "TouchEdge"@,
        Trigger::TouchTap { .. } => "TouchTap"@,
        Trigger::TouchTapHoldDrag { .. } => "TouchTapHoldDrag"@,
        Trigger::TouchpadSwipe { .. } => "TouchpadSwipe"@,
        Trigger::TouchpadTapHold { .. } => "TouchpadTapHold"@,
        Trigger::TouchpadTapHoldDrag { .. } => "TouchpadTapHoldDrag"@,
    }
}

/// The finger count of a trigger that has one.
pub open spec fn trigger_fingers(t: Trigger) -> Option<u8> {
    match t {
        Trigger::TouchSwipe { fingers, .. } => Some(fingers),
        Trigger::TouchPinch { fingers, .. } => Some(fingers),
        Trigger::TouchRotate { fingers, .. } => Some(fingers),
        Trigger::TouchEdge { .. } => None,
        Trigger::TouchTap { fingers } => Some(fingers),
        Trigger::TouchTapHoldDrag { fingers, .. } => Some(fingers),
        Trigger::TouchpadSwipe { fingers, .. } => Some(fingers),
        Trigger::TouchpadTapHold { fingers } => Some(fingers),
        Trigger::TouchpadTapHoldDrag { fingers } => Some(fingers),
    }
}

/// A trigger that niri accepts: its finger count, if any, is in range.
pub open spec fn valid_trigger(t: Trigger) -> bool {
    match trigger_fingers(t) {
        Some(f) => valid_fingers(f),
        None => true,
    }
}

/// What follows `family:` in a trigger's key.
pub open spec fn key_rest(t: Trigger) -> Seq<char> {
    match t {
        Trigger::TouchSwipe { fingers, direction } => decimal(fingers as nat) + ":"@ + swipe_kdl(
            direction,
        ),
        Trigger::TouchPinch { fingers, direction } => decimal(fingers as nat) + ":"@ + pinch_kdl(
            direction,
        ),
        Trigger::TouchRotate { fingers, direction } => decimal(fingers as nat) + ":"@ + rotate_kdl(
            direction,
        ),
        Trigger::TouchEdge { edge, zone } => edge_kdl(edge) + ":"@ + match zone {
            Some(z) => zone_kdl(z, edge),
            None => "full"@,
        },
        Trigger::TouchTap { fingers } => decimal(fingers as nat),
        Trigger::TouchTapHoldDrag { fingers, direction } => decimal(fingers as nat) + ":"@
            + match direction {
            Some(d) => swipe_kdl(d),
            None => "any"@,
        },
        Trigger::TouchpadSwipe { fingers, direction } => decimal(fingers as nat) + ":"@ + swipe_kdl(
            direction,
        ),
        Trigger::TouchpadTapHold { fingers } => decimal(fingers as nat),
        Trigger::TouchpadTapHoldDrag { fingers } => decimal(fingers as nat),
    }
}

/// The dedup key of a trigger, e.g. `TouchSwipe:3:up` or `TouchEdge:top:full`.
pub open spec fn spec_key(t: Trigger) -> Seq<char> {
    spec_kdl_family(t) + ":"@ + key_rest(t)
}

/// The label shown for a trigger, e.g. `3-Finger Swipe Up`.
pub open spec fn spec_display_name(t: Trigger) -> Seq<char> {
    match t {
        Trigger::TouchSwipe { fingers, direction } => decimal(fingers as nat) + "-Finger Swipe "@
            + swipe_display(direction),
        Trigger::TouchPinch { fingers, direction } => decimal(fingers as nat) + "-Finger Pinch "@
            + pinch_display(direction),
        Trigger::TouchRotate { fingers, direction } => decimal(fingers as nat) + "-Finger Rotate "@
            + rotate_display(direction),
        Trigger::TouchEdge { edge, zone } => match zone {
            None => "Edge "@ + edge_display(edge) + " (full)"@,
            Some(z) => "Edge "@ + edge_display(edge) + " \u{2014} "@ + zone_display(z, edge),
        },
        Trigger::TouchTap { fingers } => decimal(fingers as nat) + "-Finger Tap"@,
        Trigger::TouchTapHoldDrag { fingers, direction } => match direction {
            None => decimal(fingers as nat) + "-Finger Tap-Hold-Drag"@,
            Some(d) => decimal(fingers as nat) + "-Finger Tap-Hold-Drag "@ + swipe_display(d),
        },
        Trigger::TouchpadSwipe { fingers, direction } => decimal(fingers as nat)
            + "-Finger Swipe "@ + swipe_display(direction),
        Trigger::TouchpadTapHold { fingers } => decimal(fingers as nat) + "-Finger Tap-Hold"@,
        Trigger::TouchpadTapHoldDrag { fingers } => decimal(fingers as nat)
            + "-Finger Tap-Hold-Drag"@,
    }
}

// ---------------------------------------------------------------------------
// Reading a trigger from a bind node
// ---------------------------------------------------------------------------

/// The position of the last `c` in `s`, or -1.
pub open spec fn last_index_of(s: Seq<char>, c: char) -> int
    decreases s.len(),
{
    if s.len() == 0 {
        -1
    } else if s.last() == c {
        s.len() - 1
    } else {
        last_index_of(s.drop_last(), c)
    }
}

/// The node name with any modifier prefix (`Mod+`) stripped: the text after
/// the last `+`.
pub open spec fn family_part(label: Seq<char>) -> Seq<char> {
    label.skip(last_index_of(label, '+') + 1)
}

/// Property `key` as a byte-sized integer.
pub open spec fn prop_u8(n: NodeView, key: Seq<char>) -> Option<u8> {
    match prop_value(n.entries, key) {
        Some(ValueView::Integer(i)) => if 0 <= i <= 255 {
            Some(i as u8)
        } else {
            None
        },
        _ => None,
    }
}

/// Property `key` as a string.
pub open spec fn prop_str(n: NodeView, key: Seq<char>) -> Option<Seq<char>> {
    match prop_value(n.entries, key) {
        Some(ValueView::String(s)) => Some(s),
        _ => None,
    }
}

/// The `fingers` property, when it is a valid finger count.
pub open spec fn prop_fingers(n: NodeView) -> Option<u8> {
    match prop_u8(n, "fingers"@) {
        Some(f) => if valid_fingers(f) {
            Some(f)
        } else {
            None
        },
        None => None,
    }
}

/// The trigger a bind node describes, if any.
pub open spec fn spec_parse_node(n: NodeView) -> Option<Trigger> {
    let family = family_part(n.label);
    let fingers = prop_fingers(n);
    if family == "TouchSwipe"@ || family == "TouchpadSwipe"@ {
        match fingers {
            Some(f) => match prop_str(n, "direction"@) {
                Some(s) => match swipe_parse(s) {
                    Some(d) => if family == "TouchSwipe"@ {
                        Some(Trigger::TouchSwipe { fingers: f, direction: d })
                    } else {
                        Some(Trigger::TouchpadSwipe { fingers: f, direction: d })
                    },
                    None => None,
                },
                None => None,
            },
            None => None,
        }
    } else if family == "TouchPinch"@ {
        match fingers {
            Some(f) => match prop_str(n, "direction"@) {
                Some(s) => match pinch_parse(s) {
                    Some(d) => Some(Trigger::TouchPinch { fingers: f, direction: d }),
                    None => None,
                },
                None => None,
            },
            None => None,
        }
    } else if family == "TouchRotate"@ {
        match fingers {
            Some(f) => match prop_str(n, "direction"@) {
                Some(s) => match rotate_parse(s) {
                    Some(d) => Some(Trigger::TouchRotate { fingers: f, direction: d }),
                    None => None,
                },
                None => None,
            },
            None => None,
        }
    } else if family == "TouchEdge"@ {
        match prop_str(n, "edge"@) {
            Some(es) => match edge_parse(es) {
                Some(e) => match prop_str(n, "zone"@) {
                    Some(zs) => match zone_parse(e, zs) {
                        Some(z) => Some(Trigger::TouchEdge { edge: e, zone: Some(z) }),
                        None => None,
                    },
                    None => Some(Trigger::TouchEdge { edge: e, zone: None }),
                },
                None => None,
            },
            None => None,
        }
    } else if family == "TouchTap"@ {
        match fingers {
            Some(f) => Some(Trigger::TouchTap { fingers: f }),
            None => None,
        }
    } else if family == "TouchTapHoldDrag"@ {
        match fingers {
            Some(f) => match prop_str(n, "direction"@) {
                Some(s) => match swipe_parse(s) {
                    Some(d) => Some(Trigger::TouchTapHoldDrag { fingers: f, direction: Some(d) }),
                    None => None,
                },
                None => Some(Trigger::TouchTapHoldDrag { fingers: f, direction: None }),
            },
            None => None,
        }
    } else if family == "TouchpadTapHold"@ {
        match fingers {
            Some(f) => Some(Trigger::TouchpadTapHold { fingers: f }),
            None => None,
        }
    } else if family == "TouchpadTapHoldDrag"@ {
        match fingers {
            Some(f) => Some(Trigger::TouchpadTapHoldDrag { fingers: f }),
            None => None,
        }
    } else {
        None
    }
}

// ---------------------------------------------------------------------------
// Writing a trigger into a bind node
// ---------------------------------------------------------------------------

/// A string property, forced into quotes.
pub open spec fn string_prop(key: Seq<char>, value: Seq<char>) -> EntryView {
    EntryView { name: Some(key), value: ValueView::String(value), style: Style::Quoted }
}

/// An integer property.
pub open spec fn int_prop(key: Seq<char>, value: i128) -> EntryView {
    EntryView { name: Some(key), value: ValueView::Integer(value), style: Style::Plain }
}

/// The property entries that describe a trigger, in writing order.
pub open spec fn spec_props(t: Trigger) -> Seq<EntryView> {
    match t {
        Trigger::TouchSwipe { fingers, direction } => seq![
            int_prop("fingers"@, fingers as i128),
            string_prop("direction"@, swipe_kdl(direction)),
        ],
        Trigger::TouchPinch { fingers, direction } => seq![
            int_prop("fingers"@, fingers as i128),
            string_prop("direction"@, pinch_kdl(direction)),
        ],
        Trigger::TouchRotate { fingers, direction } => seq![
            int_prop("fingers"@, fingers as i128),
            string_prop("direction"@, rotate_kdl(direction)),
        ],
        Trigger::TouchEdge { edge, zone } => match zone {
            Some(z) => seq![
                string_prop("edge"@, edge_kdl(edge)),
                string_prop("zone"@, zone_kdl(z, edge)),
            ],
            None => seq![string_prop("edge"@, edge_kdl(edge))],
        },
        Trigger::TouchTap { fingers } => seq![int_prop("fingers"@, fingers as i128)],
        Trigger::TouchTapHoldDrag { fingers, direction } => match direction {
            Some(d) => seq![
                int_prop("fingers"@, fingers as i128),
                string_prop("direction"@, swipe_kdl(d)),
            ],
            None => seq![int_prop("fingers"@, fingers as i128)],
        },
        Trigger::TouchpadSwipe { fingers, direction } => seq![
            int_prop("fingers"@, fingers as i128),
            string_prop("direction"@, swipe_kdl(direction)),
        ],
        Trigger::TouchpadTapHold { fingers } => seq![int_prop("fingers"@, fingers as i128)],
        Trigger::TouchpadTapHoldDrag { fingers } => seq![int_prop("fingers"@, fingers as i128)],
    }
}

/// Push a property entry like `direction="up"` with forced quoted repr.
pub fn push_string_prop(node: &mut Node, key: &str, value: &str)
    ensures
        final(node)@ == (NodeView {
            entries: old(node)@.entries.push(string_prop(key@, value@)),
            ..old(node)@
        }),
{
    node.push(
        Entry {
            name: Some(String::from_str(key)),
            value: Value::String(String::from_str(value)),
            style: Style::Quoted,
        },
    );
}

/// Push an integer property entry like `fingers=4`.
pub fn push_int_prop(node: &mut Node, key: &str, value: i128)
    ensures
        final(node)@ == (NodeView {
            entries: old(node)@.entries.push(int_prop(key@, value)),
            ..old(node)@
        }),
{
    node.push(
        Entry { name: Some(String::from_str(key)), value: Value::Integer(value), style: Style::Plain },
    );
}

impl Trigger {
    /// The bare KDL node name (family) without any properties.
    pub fn kdl_family(self) -> (r: &'static str)
        ensures
            r@ == spec_kdl_family(self),
    {
        match self {
            Self::TouchSwipe { .. } => "TouchSwipe",
            Self::TouchPinch { .. } => "TouchPinch",
            Self::TouchRotate { .. } => "TouchRotate",
            Self::TouchEdge { .. } => "TouchEdge",
            Self::TouchTap { .. } => "TouchTap",
            Self::TouchTapHoldDrag { .. } => "TouchTapHoldDrag",
            Self::TouchpadSwipe { .. } => "TouchpadSwipe",
            Self::TouchpadTapHold { .. } => "TouchpadTapHold",
            Self::TouchpadTapHoldDrag { .. } => "TouchpadTapHoldDrag",
        }
    }

    /// Stable dedup/equality key (used to find or delete binds without
    /// relying on struct hashing through interior fields).
    pub fn key(self) -> (r: String)
        ensures
            r@ == spec_key(self),
    {
        let mut s = String::from_str(self.kdl_family());
        s.append(":");
        match self {
            Self::TouchSwipe { fingers, direction } | Self::TouchpadSwipe { fingers, direction } => {
                push_decimal(&mut s, fingers);
                s.append(":");
                s.append(direction.as_kdl());
            },
            Self::TouchPinch { fingers, direction } => {
                push_decimal(&mut s, fingers);
                s.append(":");
                s.append(direction.as_kdl());
            },
            Self::TouchRotate { fingers, direction } => {
                push_decimal(&mut s, fingers);
                s.append(":");
                s.append(direction.as_kdl());
            },
            Self::TouchEdge { edge, zone } => {
                s.append(edge.as_kdl());
                s.append(":");
                match zone {
                    Some(z) => s.append(z.as_kdl(edge)),
                    None => s.append("full"),
                }
            },
            Self::TouchTap { fingers }
            | Self::TouchpadTapHold { fingers }
            | Self::TouchpadTapHoldDrag { fingers } => {
                push_decimal(&mut s, fingers);
            },
            Self::TouchTapHoldDrag { fingers, direction } => {
                push_decimal(&mut s, fingers);
                s.append(":");
                match direction {
                    Some(d) => s.append(d.as_kdl()),
                    None => s.append("any"),
                }
            },
        }
        assert(s@ =~= spec_key(self));
        s
    }

    /// Human-readable label used in UI list/rows.
    pub fn display_name(self) -> (r: String)
        ensures
            r@ == spec_display_name(self),
    {
        let mut s = String::new();
        match self {
            Self::TouchSwipe { fingers, direction } | Self::TouchpadSwipe { fingers, direction } => {
                push_decimal(&mut s, fingers);
                s.append("-Finger Swipe ");
                s.append(direction.display());
            },
            Self::TouchPinch { fingers, direction } => {
                push_decimal(&mut s, fingers);
                s.append("-Finger Pinch ");
                s.append(direction.display());
            },
            Self::TouchRotate { fingers, direction } => {
                push_decimal(&mut s, fingers);
                s.append("-Finger Rotate ");
                s.append(direction.display());
            },
            Self::TouchEdge { edge, zone } => {
                s.append("Edge ");
                s.append(edge.display());
                match zone {
                    None => s.append(" (full)"),
                    Some(z) => {
                        s.append(" \u{2014} ");
                        s.append(z.display(edge));
                    },
                }
            },
            Self::TouchTap { fingers } => {
                push_decimal(&mut s, fingers);
                s.append("-Finger Tap");
            },
            Self::TouchTapHoldDrag { fingers, direction } => {
                push_decimal(&mut s, fingers);
                match direction {
                    None => s.append("-Finger Tap-Hold-Drag"),
                    Some(d) => {
                        s.append("-Finger Tap-Hold-Drag ");
                        s.append(d.display());
                    },
                }
            },
            Self::TouchpadTapHold { fingers } => {
                push_decimal(&mut s, fingers);
                s.append("-Finger Tap-Hold");
            },
            Self::TouchpadTapHoldDrag { fingers } => {
                push_decimal(&mut s, fingers);
                s.append("-Finger Tap-Hold-Drag");
            },
        }
        assert(s@ =~= spec_display_name(self));
        s
    }

    /// Populate a bind node (already named with `kdl_family()`) with the
    /// property entries for this trigger. Strings are written with forced
    /// double-quoted repr because niri's parser requires it.
    pub fn write_props(self, node: &mut Node)
        ensures
            final(node)@ == (NodeView {
                entries: old(node)@.entries + spec_props(self),
                ..old(node)@
            }),
    {
        let ghost before = node@;
        match self {
            Self::TouchSwipe { fingers, direction } | Self::TouchpadSwipe { fingers, direction } => {
                push_int_prop(node, "fingers", fingers as i128);
                push_string_prop(node, "direction", direction.as_kdl());
            },
            Self::TouchPinch { fingers, direction } => {
                push_int_prop(node, "fingers", fingers as i128);
                push_string_prop(node, "direction", direction.as_kdl());
            },
            Self::TouchRotate { fingers, direction } => {
                push_int_prop(node, "fingers", fingers as i128);
                push_string_prop(node, "direction", direction.as_kdl());
            },
            Self::TouchEdge { edge, zone } => {
                push_string_prop(node, "edge", edge.as_kdl());
                if let Some(z) = zone {
                    push_string_prop(node, "zone", z.as_kdl(edge));
                }
            },
            Self::TouchTap { fingers }
            | Self::TouchpadTapHold { fingers }
            | Self::TouchpadTapHoldDrag { fingers } => {
                push_int_prop(node, "fingers", fingers as i128);
            },
            Self::TouchTapHoldDrag { fingers, direction } => {
                push_int_prop(node, "fingers", fingers as i128);
                if let Some(d) = direction {
                    push_string_prop(node, "direction", d.as_kdl());
                }
            },
        }
        assert(node@.entries =~= before.entries + spec_props(self));
    }
}


// ---------------------------------------------------------------------------
// Reading helpers
// ---------------------------------------------------------------------------

/// The characters of `label` after its last `+`.
fn family_of(label: &str) -> (r: Vec<char>)
    ensures
        r@ == family_part(label@),
{
    let v = chars_of(label);
    // one past the last `+` seen so far
    let mut start: usize = 0;
    let mut i: usize = 0;
    assert(v@.take(0) =~= Seq::<char>::empty());
    while i < v.len()
        invariant
            i <= v.len(),
            v@ == label@,
            start == last_index_of(v@.take(i as int), '+') + 1,
            start <= i,
        decreases v.len() - i,
    {
        assert(v@.take(i + 1).drop_last() =~= v@.take(i as int));
        if v[i] == '+' {
            start = i + 1;
        }
        i = i + 1;
    }
    assert(v@.take(v.len() as int) =~= v@);
    let mut r: Vec<char> = Vec::new();
    let mut j: usize = start;
    while j < v.len()
        invariant
            start <= j <= v.len(),
            r@ == v@.subrange(start as int, j as int),
        decreases v.len() - j,
    {
        r.push(v[j]);
        j = j + 1;
        assert(r@ =~= v@.subrange(start as int, j as int));
    }
    assert(r@ =~= v@.skip(start as int));
    r
}

/// Property `key` of `node` as a string.
fn prop_string(node: &Node, key: &str) -> (r: Option<String>)
    ensures
        match r {
            Some(s) => prop_str(node@, key@) == Some(s@),
            None => prop_str(node@, key@) is None,
        },
{
    match node.get(key) {
        Some(Value::String(s)) => Some(s.clone()),
        _ => None,
    }
}

/// The `fingers` property of `node`, when it is a valid finger count.
fn node_fingers(node: &Node) -> (r: Option<u8>)
    ensures
        r == prop_fingers(node@),
{
    let f = match node.get("fingers") {
        Some(Value::Integer(i)) => {
            if 0 <= *i && *i <= 255 {
                *i as u8
            } else {
                return None;
            }
        },
        _ => return None,
    };
    if MIN_FINGERS <= f && f <= MAX_FINGERS {
        Some(f)
    } else {
        None
    }
}

impl Trigger {
    /// Parse a bind node (by its name + property entries) into a Trigger.
    /// Returns None for unrecognized families or invalid property
    /// combinations. Modifier prefixes (`Mod+TouchSwipe`) are stripped.
    pub fn parse_node(node: &Node) -> (r: Option<Self>)
        ensures
            r == spec_parse_node(node@),
    {
        let family = family_of(node.label.as_str());
        let fam = family.as_slice();
        let is_swipe = chars_eq_str(fam, "TouchSwipe");
        if is_swipe || chars_eq_str(fam, "TouchpadSwipe") {
            let fingers = node_fingers(node)?;
            let direction = SwipeDir::parse(prop_string(node, "direction")?.as_str())?;
            if is_swipe {
                Some(Self::TouchSwipe { fingers, direction })
            } else {
                Some(Self::TouchpadSwipe { fingers, direction })
            }
        } else if chars_eq_str(fam, "TouchPinch") {
            let fingers = node_fingers(node)?;
            let direction = PinchDir::parse(prop_string(node, "direction")?.as_str())?;
            Some(Self::TouchPinch { fingers, direction })
        } else if chars_eq_str(fam, "TouchRotate") {
            let fingers = node_fingers(node)?;
            let direction = RotateDir::parse(prop_string(node, "direction")?.as_str())?;
            Some(Self::TouchRotate { fingers, direction })
        } else if chars_eq_str(fam, "TouchEdge") {
            let edge = Edge::parse(prop_string(node, "edge")?.as_str())?;
            let zone = match prop_string(node, "zone") {
                Some(z) => Some(EdgeZone::parse(edge, z.as_str())?),
                None => None,
            };
            Some(Self::TouchEdge { edge, zone })
        } else if chars_eq_str(fam, "TouchTap") {
            let fingers = node_fingers(node)?;
            Some(Self::TouchTap { fingers })
        } else if chars_eq_str(fam, "TouchTapHoldDrag") {
            let fingers = node_fingers(node)?;
            let direction = match prop_string(node, "direction") {
                Some(s) => Some(SwipeDir::parse(s.as_str())?),
                None => None,
            };
            Some(Self::TouchTapHoldDrag { fingers, direction })
        } else if chars_eq_str(fam, "TouchpadTapHold") {
            let fingers = node_fingers(node)?;
            Some(Self::TouchpadTapHold { fingers })
        } else if chars_eq_str(fam, "TouchpadTapHoldDrag") {
            let fingers = node_fingers(node)?;
            Some(Self::TouchpadTapHoldDrag { fingers })
        } else {
            None
        }
    }
}

} // verus!
