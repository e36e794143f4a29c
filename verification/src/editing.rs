//! What the settings pages decide when the user edits the bind list:
//! in-place trigger edits with collision checks, adding and deleting binds,
//! the "add bind" form, and the labels shown for actions.

use vstd::prelude::*;
use crate::text::{str_eq, chars_of, contains_str, occurs_in};
use crate::trigger::{
    Trigger, SwipeDir, PinchDir, RotateDir, Edge, EdgeZone, spec_key, swipe_at, pinch_at, rotate_at,
    edge_at, zone_at, swipe_index, pinch_index, rotate_index, trigger_fingers, zone_display,
    MIN_FINGERS, MAX_FINGERS,
};
use crate::binds::{TouchBindEntry, BindView, binds_view};
use crate::document::Real;

verus! {

broadcast use vstd::string::group_string_axioms;

// ---------------------------------------------------------------------------
// Trigger edits
// ---------------------------------------------------------------------------

/// One change the user can make to a bind's trigger from its row: a new
/// finger count, or the index picked in the direction, edge or zone menu.
#[derive(Debug, Clone, Copy, PartialEq, Eq, Structural)]
pub enum TriggerEdit {
    Fingers(u8),
    Direction(usize),
    Edge(usize),
    Zone(usize),
}

/// The trigger an edit makes of `t`. Variants the edit does not apply to
/// are left unchanged. The direction menu of a tap-hold-drag bind starts
/// with "Any"; the zone menu starts with "Full".
pub open spec fn spec_edited(t: Trigger, edit: TriggerEdit) -> Trigger {
    match edit {
        TriggerEdit::Fingers(f) => match t {
            Trigger::TouchSwipe { direction, .. } => Trigger::TouchSwipe { fingers: f, direction },
            Trigger::TouchPinch { direction, .. } => Trigger::TouchPinch { fingers: f, direction },
            Trigger::TouchRotate { direction, .. } => Trigger::TouchRotate { fingers: f, direction },
            Trigger::TouchTap { .. } => Trigger::TouchTap { fingers: f },
            Trigger::TouchTapHoldDrag { direction, .. } => Trigger::TouchTapHoldDrag {
                fingers: f,
                direction,
            },
            Trigger::TouchpadSwipe { direction, .. } => Trigger::TouchpadSwipe {
                fingers: f,
                direction,
            },
            Trigger::TouchpadTapHold { .. } => Trigger::TouchpadTapHold { fingers: f },
            Trigger::TouchpadTapHoldDrag { .. } => Trigger::TouchpadTapHoldDrag { fingers: f },
            Trigger::TouchEdge { .. } => t,
        },
        TriggerEdit::Direction(i) => match t {
            Trigger::TouchSwipe { fingers, .. } => Trigger::TouchSwipe {
                fingers,
                direction: swipe_at(i as int),
            },
            Trigger::TouchPinch { fingers, .. } => Trigger::TouchPinch {
                fingers,
                direction: pinch_at(i as int),
            },
            Trigger::TouchRotate { fingers, .. } => Trigger::TouchRotate {
                fingers,
                direction: rotate_at(i as int),
            },
            Trigger::TouchTapHoldDrag { fingers, .. } => Trigger::TouchTapHoldDrag {
                fingers,
                direction: if i == 0 {
                    None
                } else {
                    Some(swipe_at(i - 1))
                },
            },
            Trigger::TouchpadSwipe { fingers, .. } => Trigger::TouchpadSwipe {
                fingers,
                direction: swipe_at(i as int),
            },
            _ => t,
        },
        TriggerEdit::Edge(i) => match t {
            Trigger::TouchEdge { zone, .. } => Trigger::TouchEdge { edge: edge_at(i as int), zone },
            _ => t,
        },
        TriggerEdit::Zone(i) => match t {
            Trigger::TouchEdge { edge, .. } => Trigger::TouchEdge {
                edge,
                zone: if i == 0 {
                    None
                } else {
                    Some(zone_at(i - 1))
                },
            },
            _ => t,
        },
    }
}

/// The entry the direction menu shows for a trigger: the direction's
/// position, after "Any" for tap-hold-drag.
pub open spec fn spec_direction_index(t: Trigger) -> Option<usize> {
    match t {
        Trigger::TouchSwipe { direction, .. } => Some(swipe_index(direction)),
        Trigger::TouchpadSwipe { direction, .. } => Some(swipe_index(direction)),
        Trigger::TouchPinch { direction, .. } => Some(pinch_index(direction)),
        Trigger::TouchRotate { direction, .. } => Some(rotate_index(direction)),
        Trigger::TouchTapHoldDrag { direction, .. } => match direction {
            None => Some(0),
            Some(d) => Some((1 + swipe_index(d)) as usize),
        },
        _ => None,
    }
}

impl Trigger {
    /// This trigger after an edit from its bind row.
    pub fn edited(self, edit: TriggerEdit) -> (r: Trigger)
        ensures
            r == spec_edited(self, edit),
    {
        match edit {
            TriggerEdit::Fingers(f) => match self {
                Trigger::TouchSwipe { direction, .. } => Trigger::TouchSwipe { fingers: f, direction },
                Trigger::TouchPinch { direction, .. } => Trigger::TouchPinch { fingers: f, direction },
                Trigger::TouchRotate { direction, .. } => Trigger::TouchRotate {
                    fingers: f,
                    direction,
                },
                Trigger::TouchTap { .. } => Trigger::TouchTap { fingers: f },
                Trigger::TouchTapHoldDrag { direction, .. } => Trigger::TouchTapHoldDrag {
                    fingers: f,
                    direction,
                },
                Trigger::TouchpadSwipe { direction, .. } => Trigger::TouchpadSwipe {
                    fingers: f,
                    direction,
                },
                Trigger::TouchpadTapHold { .. } => Trigger::TouchpadTapHold { fingers: f },
                Trigger::TouchpadTapHoldDrag { .. } => Trigger::TouchpadTapHoldDrag { fingers: f },
                Trigger::TouchEdge { .. } => self,
            },
            TriggerEdit::Direction(i) => match self {
                Trigger::TouchSwipe { fingers, .. } => Trigger::TouchSwipe {
                    fingers,
                    direction: SwipeDir::from_index(i),
                },
                Trigger::TouchPinch { fingers, .. } => Trigger::TouchPinch {
                    fingers,
                    direction: PinchDir::from_index(i),
                },
                Trigger::TouchRotate { fingers, .. } => Trigger::TouchRotate {
                    fingers,
                    direction: RotateDir::from_index(i),
                },
                Trigger::TouchTapHoldDrag { fingers, .. } => {
                    let direction = if i == 0 {
                        None
                    } else {
                        Some(SwipeDir::from_index(i - 1))
                    };
                    Trigger::TouchTapHoldDrag { fingers, direction }
                },
                Trigger::TouchpadSwipe { fingers, .. } => Trigger::TouchpadSwipe {
                    fingers,
                    direction: SwipeDir::from_index(i),
                },
                _ => self,
            },
            TriggerEdit::Edge(i) => match self {
                Trigger::TouchEdge { zone, .. } => Trigger::TouchEdge {
                    edge: Edge::from_index(i),
                    zone,
                },
                _ => self,
            },
            TriggerEdit::Zone(i) => match self {
                Trigger::TouchEdge { edge, .. } => {
                    let zone = if i == 0 {
                        None
                    } else {
                        Some(EdgeZone::from_index(i - 1))
                    };
                    Trigger::TouchEdge { edge, zone }
                },
                _ => self,
            },
        }
    }

    /// The finger count, for the variants that have one.
    pub fn fingers(self) -> (r: Option<u8>)
        ensures
            r == trigger_fingers(self),
    {
        match self {
            Trigger::TouchSwipe { fingers, .. }
            | Trigger::TouchPinch { fingers, .. }
            | Trigger::TouchRotate { fingers, .. }
            | Trigger::TouchTap { fingers }
            | Trigger::TouchTapHoldDrag { fingers, .. }
            | Trigger::TouchpadSwipe { fingers, .. }
            | Trigger::TouchpadTapHold { fingers }
            | Trigger::TouchpadTapHoldDrag { fingers } => Some(fingers),
            Trigger::TouchEdge { .. } => None,
        }
    }

    /// The entry of the direction menu that shows this trigger's direction.
    pub fn direction_index(self) -> (r: Option<usize>)
        ensures
            r == spec_direction_index(self),
    {
        match self {
            Trigger::TouchSwipe { direction, .. } | Trigger::TouchpadSwipe { direction, .. } => Some(
                direction.index(),
            ),
            Trigger::TouchPinch { direction, .. } => Some(direction.index()),
            Trigger::TouchRotate { direction, .. } => Some(direction.index()),
            Trigger::TouchTapHoldDrag { direction, .. } => match direction {
                None => Some(0),
                Some(d) => Some(1 + d.index()),
            },
            _ => None,
        }
    }
}

// ---------------------------------------------------------------------------
// The bind list
// ---------------------------------------------------------------------------

/// No two binds share a trigger key.
pub open spec fn keys_unique(bs: Seq<BindView>) -> bool {
    forall|i: int, j: int|
        0 <= i < bs.len() && 0 <= j < bs.len() && i != j ==> spec_key(bs[i].trigger) != spec_key(
            bs[j].trigger,
        )
}

/// `i` is the first bind whose trigger has key `key`.
pub open spec fn first_with_key(bs: Seq<BindView>, key: Seq<char>, i: int) -> bool {
    &&& 0 <= i < bs.len()
    &&& spec_key(bs[i].trigger) == key
    &&& forall|j: int| 0 <= j < i ==> spec_key(#[trigger] bs[j].trigger) != key
}

/// No bind's trigger has key `key`.
pub open spec fn none_with_key(bs: Seq<BindView>, key: Seq<char>) -> bool {
    forall|j: int| 0 <= j < bs.len() ==> spec_key(#[trigger] bs[j].trigger) != key
}

/// The position of the first bind whose trigger has key `key`.
pub fn find_bind_index(binds: &Vec<TouchBindEntry>, key: &str) -> (r: Option<usize>)
    ensures
        match r {
            Some(i) => first_with_key(binds_view(binds@), key@, i as int),
            None => none_with_key(binds_view(binds@), key@),
        },
{
    let ghost bv = binds_view(binds@);
    let mut i: usize = 0;
    while i < binds.len()
        invariant
            i <= binds.len(),
            bv == binds_view(binds@),
            forall|j: int| 0 <= j < i ==> spec_key(#[trigger] bv[j].trigger) != key@,
        decreases binds.len() - i,
    {
        let k = binds[i].trigger.key();
        if str_eq(k.as_str(), key) {
            return Some(i);
        }
        i = i + 1;
    }
    None
}

/// What an in-place trigger edit came to.
#[derive(Debug, Clone, Copy, PartialEq, Eq, Structural)]
pub enum TriggerUpdate {
    /// No bind has the current key.
    Missing,
    /// The edit leaves the trigger's key as it was; nothing changed.
    Unchanged,
    /// Another bind already has the edited trigger's key; nothing changed.
    Collision,
    /// The bind now has this trigger.
    Updated(Trigger),
}

/// Another bind than the one at `i` has key `key`.
pub open spec fn other_with_key(bs: Seq<BindView>, i: int, key: Seq<char>) -> bool {
    exists|j: int| 0 <= j < bs.len() && j != i && spec_key(#[trigger] bs[j].trigger) == key
}

/// Apply an in-place edit to the trigger of the bind identified by
/// `current_key`: nothing changes when no bind has that key, when the edit
/// keeps the key, or when another bind already has the new key.
pub fn update_bind_trigger(binds: &mut Vec<TouchBindEntry>, current_key: &str, edit: TriggerEdit) -> (r: TriggerUpdate)
    ensures
        ({
            let old_bv = binds_view(old(binds)@);
            let new_bv = binds_view(final(binds)@);
            match r {
                TriggerUpdate::Missing => none_with_key(old_bv, current_key@) && new_bv == old_bv,
                TriggerUpdate::Unchanged => exists|i: int|
                    first_with_key(old_bv, current_key@, i) && spec_key(
                        spec_edited(#[trigger] old_bv[i].trigger, edit),
                    ) == current_key@ && new_bv == old_bv,
                TriggerUpdate::Collision => exists|i: int|
                    first_with_key(old_bv, current_key@, i) && spec_key(
                        spec_edited(#[trigger] old_bv[i].trigger, edit),
                    ) != current_key@ && other_with_key(
                        old_bv,
                        i,
                        spec_key(spec_edited(old_bv[i].trigger, edit)),
                    ) && new_bv == old_bv,
                TriggerUpdate::Updated(t) => exists|i: int|
                    first_with_key(old_bv, current_key@, i) && t == spec_edited(
                        #[trigger] old_bv[i].trigger,
                        edit,
                    ) && spec_key(t) != current_key@ && !other_with_key(old_bv, i, spec_key(t))
                        && new_bv == old_bv.update(i, BindView { trigger: t, ..old_bv[i] }),
            }
        }),
{
    let ghost old_bv = binds_view(binds@);
    let Some(idx) = find_bind_index(binds, current_key) else {
        return TriggerUpdate::Missing;
    };
    let new_trigger = binds[idx].trigger.edited(edit);
    let new_key = new_trigger.key();
    assert(new_trigger == spec_edited(old_bv[idx as int].trigger, edit));
    if str_eq(new_key.as_str(), current_key) {
        assert(first_with_key(old_bv, current_key@, idx as int));
        assert(spec_key(spec_edited(old_bv[idx as int].trigger, edit)) == current_key@);
        return TriggerUpdate::Unchanged;
    }
    let mut j: usize = 0;
    while j < binds.len()
        invariant
            j <= binds.len(),
            idx < binds.len(),
            old_bv == binds_view(binds@),
            new_key@ == spec_key(new_trigger),
            first_with_key(old_bv, current_key@, idx as int),
            new_key@ != current_key@,
            new_trigger == spec_edited(old_bv[idx as int].trigger, edit),
            forall|k: int| 0 <= k < j && k != idx ==> spec_key(#[trigger] old_bv[k].trigger) != new_key@,
        decreases binds.len() - j,
    {
        if j != idx {
            let k = binds[j].trigger.key();
            if str_eq(k.as_str(), new_key.as_str()) {
                assert(first_with_key(old_bv, current_key@, idx as int));
                assert(spec_key(old_bv[j as int].trigger) == new_key@);
                assert(other_with_key(old_bv, idx as int, spec_key(spec_edited(old_bv[idx as int].trigger, edit))));
                assert(spec_key(spec_edited(old_bv[idx as int].trigger, edit)) != current_key@);
                return TriggerUpdate::Collision;
            }
        }
        j = j + 1;
    }
    binds[idx].trigger = new_trigger;
    assert(binds_view(binds@) =~= old_bv.update(idx as int, BindView { trigger: new_trigger, ..old_bv[idx as int] }));
    assert(first_with_key(old_bv, current_key@, idx as int));
    assert(!other_with_key(old_bv, idx as int, spec_key(new_trigger)));
    TriggerUpdate::Updated(new_trigger)
}

/// Adds `bind` unless a bind with the same trigger key is already there.
/// Returns whether it was added.
pub fn add_bind(binds: &mut Vec<TouchBindEntry>, bind: TouchBindEntry) -> (added: bool)
    ensures
        added == none_with_key(binds_view(old(binds)@), spec_key(bind.trigger)),
        added ==> binds_view(final(binds)@) == binds_view(old(binds)@).push(bind@),
        !added ==> binds_view(final(binds)@) == binds_view(old(binds)@),
{
    let key = bind.trigger.key();
    match find_bind_index(binds, key.as_str()) {
        Some(_) => false,
        None => {
            let ghost b = bind@;
            binds.push(bind);
            assert(binds_view(binds@) =~= binds_view(old(binds)@).push(b));
            true
        },
    }
}

/// The binds of `bs` whose trigger key is not `key`, in order.
pub open spec fn without_key(bs: Seq<BindView>, key: Seq<char>) -> Seq<BindView>
    decreases bs.len(),
{
    if bs.len() == 0 {
        Seq::empty()
    } else {
        let prev = without_key(bs.drop_last(), key);
        if spec_key(bs.last().trigger) == key {
            prev
        } else {
            prev.push(bs.last())
        }
    }
}

/// Deletes every bind whose trigger has key `key`.
pub fn remove_binds_with_key(binds: &mut Vec<TouchBindEntry>, key: &str)
    ensures
        binds_view(final(binds)@) == without_key(binds_view(old(binds)@), key@),
{
    let ghost old_bv = binds_view(binds@);
    let mut rest: Vec<TouchBindEntry> = Vec::new();
    std::mem::swap(binds, &mut rest);
    let total = rest.len();
    let ghost n = total as nat;
    let mut k: usize = 0;
    assert(old_bv.take(0) =~= Seq::<BindView>::empty());
    assert(binds_view(binds@) =~= Seq::<BindView>::empty());
    while rest.len() > 0
        invariant
            k <= n,
            n == old_bv.len(),
            rest@.len() == n - k,
            n <= usize::MAX,
            binds_view(rest@) == old_bv.skip(k as int),
            binds_view(binds@) == without_key(old_bv.take(k as int), key@),
        decreases rest.len(),
    {
        let ghost old_rest = rest@;
        let b = rest.remove(0);
        assert(rest@ =~= old_rest.subrange(1, old_rest.len() as int));
        assert(old_bv.take(k + 1).drop_last() =~= old_bv.take(k as int));
        assert(binds_view(old_rest)[0] == old_bv.skip(k as int)[0]);
        assert(old_bv.take(k + 1).last() == b@);
        let kk = b.trigger.key();
        if !str_eq(kk.as_str(), key) {
            let ghost before = binds_view(binds@);
            binds.push(b);
            assert(binds_view(binds@) =~= before.push(old_bv[k as int]));
        }
        assert forall|m: int| 0 <= m < binds_view(rest@).len() implies #[trigger] binds_view(rest@)[m]
            == old_bv.skip(k + 1)[m] by {
            assert(binds_view(rest@)[m] == binds_view(old_rest)[m + 1]);
            assert(binds_view(old_rest)[m + 1] == old_bv.skip(k as int)[m + 1]);
        }
        assert(binds_view(rest@) =~= old_bv.skip(k + 1));
        k = k + 1;
    }
    assert(old_bv.take(k as int) =~= old_bv);
}


// ---------------------------------------------------------------------------
// The "add bind" forms
// ---------------------------------------------------------------------------

/// The gesture family picked in the touchscreen "add bind" form.
#[derive(Debug, Clone, Copy, PartialEq, Eq, Structural)]
pub enum Family {
    Swipe,
    Pinch,
    Rotate,
    Edge,
    Tap,
    TapHoldDrag,
}

pub open spec fn family_at(i: u32) -> Family {
    if i == 0 {
        Family::Swipe
    } else if i == 1 {
        Family::Pinch
    } else if i == 2 {
        Family::Rotate
    } else if i == 3 {
        Family::Edge
    } else if i == 4 {
        Family::Tap
    } else {
        Family::TapHoldDrag
    }
}

impl Family {
    /// The menu labels, in menu order.
    pub fn all_labels() -> (r: [&'static str; 6])
        ensures
            r[0]@ == "Swipe"@,
            r[1]@ == "Pinch"@,
            r[2]@ == "Rotate"@,
            r[3]@ == "Edge"@,
            r[4]@ == "Tap"@,
            r[5]@ == "Tap-Hold-Drag"@,
    {
        ["Swipe", "Pinch", "Rotate", "Edge", "Tap", "Tap-Hold-Drag"]
    }

    /// The family of menu entry `i`; entries past the end are the last.
    pub fn from_index(i: u32) -> (r: Self)
        ensures
            r == family_at(i),
    {
        match i {
            0 => Self::Swipe,
            1 => Self::Pinch,
            2 => Self::Rotate,
            3 => Self::Edge,
            4 => Self::Tap,
            _ => Self::TapHoldDrag,
        }
    }
}

/// The trigger the touchscreen "add bind" form describes. Menu indices
/// count round their menu; the tap-hold-drag direction menu starts with
/// "Any" and the zone menu with "Full".
pub open spec fn spec_form_trigger(family: Family, fingers: u8, dir: u32, edge: u32, zone: u32) -> Trigger {
    match family {
        Family::Swipe => Trigger::TouchSwipe { fingers, direction: swipe_at(dir as int) },
        Family::Pinch => Trigger::TouchPinch { fingers, direction: pinch_at(dir as int) },
        Family::Rotate => Trigger::TouchRotate { fingers, direction: rotate_at(dir as int) },
        Family::Edge => Trigger::TouchEdge {
            edge: edge_at(edge as int),
            zone: if zone == 0 {
                None
            } else {
                Some(zone_at(zone - 1))
            },
        },
        Family::Tap => Trigger::TouchTap { fingers },
        Family::TapHoldDrag => Trigger::TouchTapHoldDrag {
            fingers,
            direction: if dir == 0 {
                None
            } else {
                Some(swipe_at(dir - 1))
            },
        },
    }
}

/// The trigger the touchscreen "add bind" form describes.
pub fn form_trigger(family: Family, fingers: u8, dir: u32, edge: u32, zone: u32) -> (t: Trigger)
    ensures
        t == spec_form_trigger(family, fingers, dir, edge, zone),
{
    match family {
        Family::Swipe => Trigger::TouchSwipe {
            fingers,
            direction: SwipeDir::from_index(dir as usize),
        },
        Family::Pinch => Trigger::TouchPinch { fingers, direction: PinchDir::from_index(dir as usize) },
        Family::Rotate => Trigger::TouchRotate {
            fingers,
            direction: RotateDir::from_index(dir as usize),
        },
        Family::Edge => {
            let e = Edge::from_index(edge as usize);
            let z = if zone == 0 {
                None
            } else {
                Some(EdgeZone::from_index((zone - 1) as usize))
            };
            Trigger::TouchEdge { edge: e, zone: z }
        },
        Family::Tap => Trigger::TouchTap { fingers },
        Family::TapHoldDrag => {
            let direction = if dir == 0 {
                None
            } else {
                Some(SwipeDir::from_index((dir - 1) as usize))
            };
            Trigger::TouchTapHoldDrag { fingers, direction }
        },
    }
}

/// A finger count held to the range a trigger accepts.
pub open spec fn clamp_fingers(f: u8) -> u8 {
    if f < MIN_FINGERS {
        MIN_FINGERS
    } else if f > MAX_FINGERS {
        MAX_FINGERS
    } else {
        f
    }
}

/// The trigger the touchpad "add bind" form describes. Swipe is the only
/// touchpad family, so the form picks fingers and a direction: the finger
/// count is held to 3..=10, and a direction index past the four directions
/// (no direction picked) gives no trigger, so no bind is added.
pub open spec fn spec_touchpad_form_trigger(fingers: u8, dir: u32) -> Option<Trigger> {
    if dir < 4 {
        Some(Trigger::TouchpadSwipe { fingers: clamp_fingers(fingers), direction: swipe_at(dir as int) })
    } else {
        None
    }
}

/// The trigger the touchpad "add bind" form describes, if any.
pub fn touchpad_form_trigger(fingers: u8, dir: u32) -> (t: Option<Trigger>)
    ensures
        t == spec_touchpad_form_trigger(fingers, dir),
        t matches Some(Trigger::TouchpadSwipe { fingers: f, .. }) ==> MIN_FINGERS <= f <= MAX_FINGERS,
        t is Some ==> t.unwrap() is TouchpadSwipe,
{
    if dir >= 4 {
        return None;
    }
    let f = if fingers < MIN_FINGERS {
        MIN_FINGERS
    } else if fingers > MAX_FINGERS {
        MAX_FINGERS
    } else {
        fingers
    };
    Some(Trigger::TouchpadSwipe { fingers: f, direction: SwipeDir::from_index(dir as usize) })
}

/// The zone menu of an edge: "Full", then the three zones as that edge
/// names them.
pub fn zone_labels_for(edge: Edge) -> (r: [&'static str; 4])
    ensures
        r[0]@ == "Full"@,
        r[1]@ == zone_display(EdgeZone::Start, edge),
        r[2]@ == zone_display(EdgeZone::Center, edge),
        r[3]@ == zone_display(EdgeZone::End, edge),
{
    match edge {
        Edge::Left | Edge::Right => ["Full", "Top", "Center", "Bottom"],
        Edge::Top | Edge::Bottom => ["Full", "Left", "Center", "Right"],
    }
}

/// Text from an entry field: `None` when empty.
pub fn optional_text(text: String) -> (r: Option<String>)
    ensures
        match r {
            Some(t) => t@ == text@ && text@.len() > 0,
            None => text@.len() == 0,
        },
{
    if text.as_str().is_empty() {
        None
    } else {
        Some(text)
    }
}

/// The arguments a new bind's action takes: the command for `spawn`
/// (none when the command is empty: no bind is added), none for other
/// actions.
pub fn action_args_for(action_name: &str, command: &str) -> (r: Option<Vec<String>>)
    ensures
        action_name@ == "spawn"@ ==> match r {
            Some(v) => command@.len() > 0 && v@.len() == 1 && v@[0]@ == command@,
            None => command@.len() == 0,
        },
        action_name@ != "spawn"@ ==> match r {
            Some(v) => v@.len() == 0,
            None => false,
        },
{
    if str_eq(action_name, "spawn") {
        if command.is_empty() {
            None
        } else {
            let mut v: Vec<String> = Vec::new();
            v.push(String::from_str(command));
            Some(v)
        }
    } else {
        Some(Vec::new())
    }
}

/// The bind the "add bind" form describes, once it is added: the picked
/// trigger and action, the command as the one argument of `spawn`, the
/// given sensitivity and natural-scroll switch, the tag unless its text is
/// empty, enabled.
pub open spec fn spec_form_bind(
    trigger: Trigger,
    action_name: Seq<char>,
    command: Seq<char>,
    sensitivity: Option<Real>,
    natural_scroll: bool,
    tag: Seq<char>,
) -> BindView {
    BindView {
        trigger,
        action_name,
        action_args: if action_name == "spawn"@ {
            seq![command]
        } else {
            Seq::empty()
        },
        sensitivity,
        natural_scroll,
        tag: if tag.len() == 0 {
            None
        } else {
            Some(tag)
        },
        enabled: true,
    }
}

/// The bind the "add bind" form describes: none when a bind with the same
/// trigger key is there already, or when the action is `spawn` and the
/// command is empty. `sensitivity` is the multiplier to write, if any (the
/// form leaves the default multiplier unwritten).
pub fn new_bind_from_form(
    binds: &Vec<TouchBindEntry>,
    trigger: Trigger,
    action_name: &str,
    command: &str,
    sensitivity: Option<Real>,
    natural_scroll: bool,
    tag: String,
) -> (r: Option<TouchBindEntry>)
    ensures
        r is None <==> (!none_with_key(binds_view(binds@), spec_key(trigger)) || (action_name@
            == "spawn"@ && command@.len() == 0)),
        r matches Some(b) ==> b@ == spec_form_bind(
            trigger,
            action_name@,
            command@,
            sensitivity,
            natural_scroll,
            tag@,
        ),
{
    let key = trigger.key();
    if find_bind_index(binds, key.as_str()).is_some() {
        return None;
    }
    let action_args = match action_args_for(action_name, command) {
        Some(args) => args,
        None => return None,
    };
    let ghost tag_view = tag@;
    let tag = optional_text(tag);
    let b = TouchBindEntry {
        trigger,
        action_name: String::from_str(action_name),
        action_args,
        sensitivity,
        natural_scroll,
        tag,
        enabled: true,
    };
    proof {
        if action_name@ == "spawn"@ {
            assert(crate::binds::strings_view(b.action_args@) =~= seq![command@]);
        } else {
            assert(crate::binds::strings_view(b.action_args@) =~= Seq::<Seq<char>>::empty());
        }
        assert(crate::binds::opt_string_view(b.tag) == (if tag_view.len() == 0 {
            None
        } else {
            Some(tag_view)
        }));
    }
    Some(b)
}

// ---------------------------------------------------------------------------
// Action labels
// ---------------------------------------------------------------------------

/// What `char::to_uppercase` yields for `c`.
pub uninterp spec fn char_upper(c: char) -> Seq<char>;

/// `char::to_uppercase`, collected: the uppercase mapping of `c` (which
/// may be several characters). For ASCII the standard library documents
/// that it maps `a`..`z` to `A`..`Z` and leaves other characters as they
/// are; beyond ASCII only the name `char_upper` is stated.
#[verifier::external_body]
fn uppercase_of(c: char) -> (r: String)
    ensures
        r@ == char_upper(c),
        (c as u32) < 128 ==> r@ == seq![
            if 'a' <= c <= 'z' {
                ((c as u32) - 32) as char
            } else {
                c
            },
        ],
{
    c.to_uppercase().collect()
}

/// `s` with each `-` turned into a space and the first character of each
/// `-`-separated word uppercased; `at_start` says the first character of
/// `s` starts a word.
pub open spec fn title_words(s: Seq<char>, at_start: bool) -> Seq<char>
    decreases s.len(),
{
    if s.len() == 0 {
        Seq::empty()
    } else if s[0] == '-' {
        seq![' '] + title_words(s.drop_first(), true)
    } else if at_start {
        char_upper(s[0]) + title_words(s.drop_first(), false)
    } else {
        seq![s[0]] + title_words(s.drop_first(), false)
    }
}

/// The strings of `xs` joined by `sep`.
pub open spec fn join(xs: Seq<Seq<char>>, sep: Seq<char>) -> Seq<char>
    decreases xs.len(),
{
    if xs.len() == 0 {
        Seq::empty()
    } else if xs.len() == 1 {
        xs[0]
    } else {
        join(xs.drop_last(), sep) + sep + xs.last()
    }
}

/// The label of the first option whose action name is `name`.
pub open spec fn option_label(options: Seq<(&str, &str)>, name: Seq<char>) -> Option<Seq<char>>
    decreases options.len(),
{
    if options.len() == 0 {
        None
    } else if options[0].1@ == name {
        Some(options[0].0@)
    } else {
        option_label(options.drop_first(), name)
    }
}

/// How an action is shown: `Spawn: <args>` for a spawn with arguments,
/// else its label in `options`, else its name in title case.
pub open spec fn spec_display_action_name(
    name: Seq<char>,
    args: Seq<Seq<char>>,
    options: Seq<(&str, &str)>,
) -> Seq<char> {
    if name == "spawn"@ && args.len() > 0 {
        "Spawn: "@ + join(args, " "@)
    } else {
        match option_label(options, name) {
            Some(label) => label,
            None => title_words(name, true),
        }
    }
}

proof fn lemma_title_step(s: Seq<char>, i: int, at_start: bool)
    requires
        0 <= i < s.len(),
    ensures
        title_words(s.skip(i), at_start) == if s[i] == '-' {
            seq![' '] + title_words(s.skip(i + 1), true)
        } else if at_start {
            char_upper(s[i]) + title_words(s.skip(i + 1), false)
        } else {
            seq![s[i]] + title_words(s.skip(i + 1), false)
        },
{
    assert(s.skip(i).drop_first() =~= s.skip(i + 1));
}

/// `name` in title case.
fn title_case(name: &str) -> (r: String)
    ensures
        r@ == title_words(name@, true),
{
    let v = chars_of(name);
    let mut out = String::new();
    let mut at_start = true;
    let mut i: usize = 0;
    assert(v@.skip(0) =~= v@);
    while i < v.len()
        invariant
            i <= v.len(),
            v@ == name@,
            out@ + title_words(v@.skip(i as int), at_start) == title_words(name@, true),
        decreases v.len() - i,
    {
        proof {
            lemma_title_step(v@, i as int, at_start);
        }
        let ghost before = out@;
        let ghost prev_start = at_start;
        let c = v[i];
        if c == '-' {
            out.push(' ');
            at_start = true;
        } else if at_start {
            let up = uppercase_of(c);
            out.append(up.as_str());
            at_start = false;
        } else {
            out.push(c);
        }
        assert(out@ + title_words(v@.skip(i + 1), at_start) =~= before + title_words(
            v@.skip(i as int),
            prev_start,
        ));
        i = i + 1;
    }
    assert(v@.skip(i as int) =~= Seq::<char>::empty());
    assert(out@ =~= out@ + Seq::<char>::empty());
    out
}

/// Shown name for an action: `Spawn: <command>` for spawn, the curated
/// label from `options` when there is one, else the action name in title
/// case.
pub fn display_action_name(action_name: &str, action_args: &[String], options: &[(&str, &str)]) -> (r: String)
    ensures
        r@ == spec_display_action_name(
            action_name@,
            crate::binds::strings_view(action_args@),
            options@,
        ),
{
    let ghost args = crate::binds::strings_view(action_args@);
    assert(args.len() == action_args@.len());
    if str_eq(action_name, "spawn") && action_args.len() > 0 {
        let mut out = String::from_str("Spawn: ");
        out.append(action_args[0].as_str());
        let mut i: usize = 1;
        assert(args.take(1) =~= seq![args[0]]);
        while i < action_args.len()
            invariant
                1 <= i <= action_args.len(),
                args == crate::binds::strings_view(action_args@),
                out@ == "Spawn: "@ + join(args.take(i as int), " "@),
            decreases action_args.len() - i,
        {
            assert(args.take(i + 1).drop_last() =~= args.take(i as int));
            out.append(" ");
            out.append(action_args[i].as_str());
            i = i + 1;
            assert(out@ =~= "Spawn: "@ + join(args.take(i as int), " "@));
        }
        assert(args.take(i as int) =~= args);
        return out;
    }
    let mut j: usize = 0;
    assert(options@.skip(0) =~= options@);
    while j < options.len()
        invariant
            j <= options.len(),
            option_label(options@, action_name@) == option_label(options@.skip(j as int), action_name@),
            args == crate::binds::strings_view(action_args@),
            !(action_name@ == "spawn"@ && args.len() > 0),
        decreases options.len() - j,
    {
        assert(options@.skip(j as int).drop_first() =~= options@.skip(j + 1));
        assert(options@.skip(j as int)[0] == options@[j as int]);
        let (label, key) = options[j];
        assert(label == options@[j as int].0 && key == options@[j as int].1);
        if str_eq(key, action_name) {
            assert(option_label(options@.skip(j as int), action_name@) == Some(label@));
            return String::from_str(label);
        }
        j = j + 1;
    }
    title_case(action_name)
}

// ---------------------------------------------------------------------------
// Filtering the bind list
// ---------------------------------------------------------------------------

/// What `str::to_lowercase` yields for `s`.
pub uninterp spec fn str_lower(s: Seq<char>) -> Seq<char>;

/// The ASCII lowercase of `c`.
pub open spec fn ascii_lower(c: char) -> char {
    if 'A' <= c <= 'Z' {
        ((c as u32) + 32) as char
    } else {
        c
    }
}

/// `str::to_lowercase`: the Unicode lowercase of `s`. The standard library
/// documents that ASCII letters `A`..`Z` become `a`..`z` and other ASCII
/// characters stay as they are; beyond ASCII only the name `str_lower` is
/// stated.
#[verifier::external_body]
fn lowercase_of(s: &str) -> (r: String)
    ensures
        r@ == str_lower(s@),
        (forall|i: int| 0 <= i < s@.len() ==> (#[trigger] s@[i] as u32) < 128) ==> r@ == s@.map_values(
            |c: char| ascii_lower(c),
        ),
{
    s.to_lowercase()
}

/// A bind row is shown for a filter text when the text is empty or, ignoring
/// case, occurs in the row's title or subtitle.
pub open spec fn spec_bind_matches(query: Seq<char>, title: Seq<char>, subtitle: Seq<char>) -> bool {
    let q = str_lower(query);
    q.len() == 0 || occurs_in(q, str_lower(title)) || occurs_in(q, str_lower(subtitle))
}

/// Whether a bind row with this title and subtitle is shown for the filter
/// text `query`.
pub fn bind_matches(query: &str, title: &str, subtitle: &str) -> (r: bool)
    ensures
        r == spec_bind_matches(query@, title@, subtitle@),
{
    let q = lowercase_of(query);
    if q.as_str().is_empty() {
        return true;
    }
    let t = lowercase_of(title);
    if contains_str(t.as_str(), q.as_str()) {
        return true;
    }
    let st = lowercase_of(subtitle);
    contains_str(st.as_str(), q.as_str())
}

} // verus!
