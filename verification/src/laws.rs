//! Laws of the library: properties that relate several of its functions.

use vstd::prelude::*;
use crate::text::{
    decimal, digit, lacks, lemma_decimal_u8, spec_v1_to_v2, spec_v2_to_v1, no_v1_bool, no_v2_bool,
    v1_bool_at, v2_bool_at, before_value, starts_bool, lemma_starts_bool_kept,
};
use crate::document::{spec_read_float_arg, spec_read_string_arg, spec_read_int_arg, spec_read_optional_bool, has_node, NodeView, EntryView, ValueView, Real, prop_value, find_node, bare_node, with_children};
use crate::settings::{
    device_block, child_block, touchscreen_defaults, touchpad_defaults,
    TouchscreenView, TouchpadView, optional, spec_parse_touchscreen, spec_touchscreen_document,
    touchscreen_body, touchscreen_gestures, input_block, spec_parse_touchpad, spec_touchpad_document, touchpad_body,
    touchpad_switches, touchpad_rest,
};
use crate::binds::binds_block;
use crate::editing::{
    Family, spec_form_trigger, spec_touchpad_form_trigger,
    keys_unique, none_with_key, other_with_key, without_key, spec_edited, spec_direction_index,
    TriggerEdit,
};
use crate::files::{includes_touchscreen, includes_touchpad, spec_with_includes, INCLUDE_BLOCK};
use crate::binds::{
    BindView, spec_read_bind, spec_read_binds, bind_node, bind_nodes, bind_options, action_node,
    action_node_of, action_args_of, action_arg, sensitivity_of, natural_scroll_of,
    sensitivity_prop, natural_scroll_prop,
};
use crate::trigger::{
    valid_trigger, spec_parse_node, spec_props, family_part, last_index_of, prop_str, prop_u8,
    prop_fingers, string_prop, int_prop,
    SwipeDir, PinchDir, RotateDir, Edge, EdgeZone, Trigger, swipe_kdl, swipe_parse, pinch_kdl,
    pinch_parse, rotate_kdl, rotate_parse, edge_kdl, edge_parse, zone_kdl, zone_parse,
    spec_kdl_family, key_rest, spec_key, trigger_fingers, edge_index, zone_index, MIN_FINGERS,
    MAX_FINGERS, spec_display_name,
};

verus! {

broadcast use vstd::string::group_string_axioms;

// ---------------------------------------------------------------------------
// Keywords
// ---------------------------------------------------------------------------

/// Each direction's KDL keyword reads back as that direction, and only
/// its keyword does.
pub proof fn law_swipe_roundtrip(d: SwipeDir, s: Seq<char>)
    ensures
        swipe_parse(swipe_kdl(d)) == Some(d),
        swipe_parse(s) == Some(d) ==> s == swipe_kdl(d),
{
    reveal_strlit("up");
    assert("up"@ =~= seq!['u', 'p']);
    reveal_strlit("down");
    assert("down"@ =~= seq!['d', 'o', 'w', 'n']);
    reveal_strlit("left");
    assert("left"@ =~= seq!['l', 'e', 'f', 't']);
    reveal_strlit("right");
    assert("right"@ =~= seq!['r', 'i', 'g', 'h', 't']);
}

/// Each pinch direction's KDL keyword reads back as that direction, and
/// only its keyword does.
pub proof fn law_pinch_roundtrip(d: PinchDir, s: Seq<char>)
    ensures
        pinch_parse(pinch_kdl(d)) == Some(d),
        pinch_parse(s) == Some(d) ==> s == pinch_kdl(d),
{
    reveal_strlit("in");
    assert("in"@ =~= seq!['i', 'n']);
    reveal_strlit("out");
    assert("out"@ =~= seq!['o', 'u', 't']);
}

/// Each rotation direction's KDL keyword reads back as that direction,
/// and only its keyword does.
pub proof fn law_rotate_roundtrip(d: RotateDir, s: Seq<char>)
    ensures
        rotate_parse(rotate_kdl(d)) == Some(d),
        rotate_parse(s) == Some(d) ==> s == rotate_kdl(d),
{
    reveal_strlit("cw");
    assert("cw"@ =~= seq!['c', 'w']);
    reveal_strlit("ccw");
    assert("ccw"@ =~= seq!['c', 'c', 'w']);
}

/// Each edge's KDL keyword reads back as that edge, and only its keyword
/// does.
pub proof fn law_edge_roundtrip(e: Edge, s: Seq<char>)
    ensures
        edge_parse(edge_kdl(e)) == Some(e),
        edge_parse(s) == Some(e) ==> s == edge_kdl(e),
{
    reveal_strlit("left");
    assert("left"@ =~= seq!['l', 'e', 'f', 't']);
    reveal_strlit("right");
    assert("right"@ =~= seq!['r', 'i', 'g', 'h', 't']);
    reveal_strlit("top");
    assert("top"@ =~= seq!['t', 'o', 'p']);
    reveal_strlit("bottom");
    assert("bottom"@ =~= seq!['b', 'o', 't', 't', 'o', 'm']);
}

/// On a given edge, each zone's KDL keyword reads back as that zone, and
/// only its keyword does.
pub proof fn law_zone_roundtrip(z: EdgeZone, e: Edge, s: Seq<char>)
    ensures
        zone_parse(e, zone_kdl(z, e)) == Some(z),
        zone_parse(e, s) == Some(z) ==> s == zone_kdl(z, e),
{
    reveal_strlit("left");
    assert("left"@ =~= seq!['l', 'e', 'f', 't']);
    reveal_strlit("center");
    assert("center"@ =~= seq!['c', 'e', 'n', 't', 'e', 'r']);
    reveal_strlit("right");
    assert("right"@ =~= seq!['r', 'i', 'g', 'h', 't']);
    reveal_strlit("top");
    assert("top"@ =~= seq!['t', 'o', 'p']);
    reveal_strlit("bottom");
    assert("bottom"@ =~= seq!['b', 'o', 't', 't', 'o', 'm']);
}

// ---------------------------------------------------------------------------
// Keys
// ---------------------------------------------------------------------------

proof fn lemma_colon_split(a1: Seq<char>, b1: Seq<char>, a2: Seq<char>, b2: Seq<char>)
    requires
        lacks(a1, ':'),
        lacks(a2, ':'),
        a1 + ":"@ + b1 == a2 + ":"@ + b2,
    ensures
        a1 == a2,
        b1 == b2,
{
    reveal_strlit(":");
    let s = a1 + ":"@ + b1;
    if a1.len() < a2.len() {
        assert(s[a1.len() as int] == ':');
        assert((a2 + ":"@ + b2)[a1.len() as int] == a2[a1.len() as int]);
    } else if a2.len() < a1.len() {
        assert(s[a2.len() as int] == a1[a2.len() as int]);
        assert((a2 + ":"@ + b2)[a2.len() as int] == ':');
    } else {
        assert(a1 =~= s.take(a1.len() as int));
        assert(a2 =~= (a2 + ":"@ + b2).take(a2.len() as int));
        assert(b1 =~= s.skip(a1.len() as int + 1));
        assert(b2 =~= (a2 + ":"@ + b2).skip(a2.len() as int + 1));
    }
}

proof fn lemma_digits()
    ensures
        forall|d: int| 0 <= d < 10 ==> #[trigger] digit(d) != ':' && digit(d) as int == d + 48,
{
}

proof fn lemma_decimal_lacks_colon(n: u8)
    ensures
        lacks(decimal(n as nat), ':'),
{
    lemma_decimal_u8(n);
    lemma_digits();
}

proof fn lemma_decimal_injective(m: u8, n: u8)
    requires
        decimal(m as nat) == decimal(n as nat),
    ensures
        m == n,
{
    lemma_decimal_u8(m);
    lemma_decimal_u8(n);
    lemma_digits();
    let dm = decimal(m as nat);
    let dn = decimal(n as nat);
    if m < 10 {
        assert(dn.len() == 1);
        assert(dm[0] == digit(m as int));
        assert(dn[0] == digit(n as int));
    } else if m < 100 {
        assert(dn.len() == 2);
        assert(dm[0] == digit((m / 10) as int) && dm[1] == digit((m % 10) as int));
        assert(dn[0] == digit((n / 10) as int) && dn[1] == digit((n % 10) as int));
    } else {
        assert(dn.len() == 3);
        assert(dm[0] == digit((m / 100) as int) && dm[1] == digit(((m / 10) % 10) as int) && dm[2]
            == digit((m % 10) as int));
        assert(dn[0] == digit((n / 100) as int) && dn[1] == digit(((n / 10) % 10) as int) && dn[2]
            == digit((n % 10) as int));
    }
}

proof fn lemma_words_lack_colon()
    ensures
        forall|t: Trigger| lacks(#[trigger] spec_kdl_family(t), ':'),
        forall|e: Edge| lacks(#[trigger] edge_kdl(e), ':'),
{
    reveal_strlit("TouchSwipe");
    assert("TouchSwipe"@ =~= seq!['T', 'o', 'u', 'c', 'h', 'S', 'w', 'i', 'p', 'e']);
    reveal_strlit("TouchPinch");
    assert("TouchPinch"@ =~= seq!['T', 'o', 'u', 'c', 'h', 'P', 'i', 'n', 'c', 'h']);
    reveal_strlit("TouchRotate");
    assert("TouchRotate"@ =~= seq!['T', 'o', 'u', 'c', 'h', 'R', 'o', 't', 'a', 't', 'e']);
    reveal_strlit("TouchEdge");
    assert("TouchEdge"@ =~= seq!['T', 'o', 'u', 'c', 'h', 'E', 'd', 'g', 'e']);
    reveal_strlit("TouchTap");
    assert("TouchTap"@ =~= seq!['T', 'o', 'u', 'c', 'h', 'T', 'a', 'p']);
    reveal_strlit("TouchTapHoldDrag");
    assert("TouchTapHoldDrag"@ =~= seq!['T', 'o', 'u', 'c', 'h', 'T', 'a', 'p', 'H', 'o', 'l', 'd', 'D', 'r', 'a', 'g']);
    reveal_strlit("TouchpadSwipe");
    assert("TouchpadSwipe"@ =~= seq!['T', 'o', 'u', 'c', 'h', 'p', 'a', 'd', 'S', 'w', 'i', 'p', 'e']);
    reveal_strlit("TouchpadTapHold");
    assert("TouchpadTapHold"@ =~= seq!['T', 'o', 'u', 'c', 'h', 'p', 'a', 'd', 'T', 'a', 'p', 'H', 'o', 'l', 'd']);
    reveal_strlit("TouchpadTapHoldDrag");
    assert("TouchpadTapHoldDrag"@ =~= seq!['T', 'o', 'u', 'c', 'h', 'p', 'a', 'd', 'T', 'a', 'p', 'H', 'o', 'l', 'd', 'D', 'r', 'a', 'g']);
    reveal_strlit("left");
    assert("left"@ =~= seq!['l', 'e', 'f', 't']);
    reveal_strlit("right");
    assert("right"@ =~= seq!['r', 'i', 'g', 'h', 't']);
    reveal_strlit("top");
    assert("top"@ =~= seq!['t', 'o', 'p']);
    reveal_strlit("bottom");
    assert("bottom"@ =~= seq!['b', 'o', 't', 't', 'o', 'm']);
}

proof fn lemma_families_distinct(a: Trigger, b: Trigger)
    requires
        spec_kdl_family(a) == spec_kdl_family(b),
    ensures
        a is TouchSwipe <==> b is TouchSwipe,
        a is TouchPinch <==> b is TouchPinch,
        a is TouchRotate <==> b is TouchRotate,
        a is TouchEdge <==> b is TouchEdge,
        a is TouchTap <==> b is TouchTap,
        a is TouchTapHoldDrag <==> b is TouchTapHoldDrag,
        a is TouchpadSwipe <==> b is TouchpadSwipe,
        a is TouchpadTapHold <==> b is TouchpadTapHold,
        a is TouchpadTapHoldDrag <==> b is TouchpadTapHoldDrag,
{
    reveal_strlit("TouchSwipe");
    assert("TouchSwipe"@ =~= seq!['T', 'o', 'u', 'c', 'h', 'S', 'w', 'i', 'p', 'e']);
    reveal_strlit("TouchPinch");
    assert("TouchPinch"@ =~= seq!['T', 'o', 'u', 'c', 'h', 'P', 'i', 'n', 'c', 'h']);
    reveal_strlit("TouchRotate");
    assert("TouchRotate"@ =~= seq!['T', 'o', 'u', 'c', 'h', 'R', 'o', 't', 'a', 't', 'e']);
    reveal_strlit("TouchEdge");
    assert("TouchEdge"@ =~= seq!['T', 'o', 'u', 'c', 'h', 'E', 'd', 'g', 'e']);
    reveal_strlit("TouchTap");
    assert("TouchTap"@ =~= seq!['T', 'o', 'u', 'c', 'h', 'T', 'a', 'p']);
    reveal_strlit("TouchTapHoldDrag");
    assert("TouchTapHoldDrag"@ =~= seq!['T', 'o', 'u', 'c', 'h', 'T', 'a', 'p', 'H', 'o', 'l', 'd', 'D', 'r', 'a', 'g']);
    reveal_strlit("TouchpadSwipe");
    assert("TouchpadSwipe"@ =~= seq!['T', 'o', 'u', 'c', 'h', 'p', 'a', 'd', 'S', 'w', 'i', 'p', 'e']);
    reveal_strlit("TouchpadTapHold");
    assert("TouchpadTapHold"@ =~= seq!['T', 'o', 'u', 'c', 'h', 'p', 'a', 'd', 'T', 'a', 'p', 'H', 'o', 'l', 'd']);
    reveal_strlit("TouchpadTapHoldDrag");
    assert("TouchpadTapHoldDrag"@ =~= seq!['T', 'o', 'u', 'c', 'h', 'p', 'a', 'd', 'T', 'a', 'p', 'H', 'o', 'l', 'd', 'D', 'r', 'a', 'g']);
}

/// Two triggers with the same key are the same trigger: the key is a
/// faithful identity for finding and deleting binds.
pub proof fn law_key_injective(a: Trigger, b: Trigger)
    requires
        spec_key(a) == spec_key(b),
    ensures
        a == b,
{
    lemma_words_lack_colon();
    lemma_colon_split(spec_kdl_family(a), key_rest(a), spec_kdl_family(b), key_rest(b));
    lemma_families_distinct(a, b);
    reveal_strlit("full");
    assert("full"@ =~= seq!['f', 'u', 'l', 'l']);
    reveal_strlit("any");
    assert("any"@ =~= seq!['a', 'n', 'y']);
    match (a, b) {
        (Trigger::TouchSwipe { fingers: f1, direction: d1 }, Trigger::TouchSwipe { fingers: f2, direction: d2 }) => {
            lemma_decimal_lacks_colon(f1);
            lemma_decimal_lacks_colon(f2);
            lemma_colon_split(decimal(f1 as nat), swipe_kdl(d1), decimal(f2 as nat), swipe_kdl(d2));
            lemma_decimal_injective(f1, f2);
            law_swipe_roundtrip(d1, swipe_kdl(d2));
            law_swipe_roundtrip(d2, swipe_kdl(d1));
        },
        (Trigger::TouchpadSwipe { fingers: f1, direction: d1 }, Trigger::TouchpadSwipe { fingers: f2, direction: d2 }) => {
            lemma_decimal_lacks_colon(f1);
            lemma_decimal_lacks_colon(f2);
            lemma_colon_split(decimal(f1 as nat), swipe_kdl(d1), decimal(f2 as nat), swipe_kdl(d2));
            lemma_decimal_injective(f1, f2);
            law_swipe_roundtrip(d1, swipe_kdl(d2));
            law_swipe_roundtrip(d2, swipe_kdl(d1));
        },
        (Trigger::TouchPinch { fingers: f1, direction: d1 }, Trigger::TouchPinch { fingers: f2, direction: d2 }) => {
            lemma_decimal_lacks_colon(f1);
            lemma_decimal_lacks_colon(f2);
            lemma_colon_split(decimal(f1 as nat), pinch_kdl(d1), decimal(f2 as nat), pinch_kdl(d2));
            lemma_decimal_injective(f1, f2);
            law_pinch_roundtrip(d1, pinch_kdl(d2));
            law_pinch_roundtrip(d2, pinch_kdl(d1));
        },
        (Trigger::TouchRotate { fingers: f1, direction: d1 }, Trigger::TouchRotate { fingers: f2, direction: d2 }) => {
            lemma_decimal_lacks_colon(f1);
            lemma_decimal_lacks_colon(f2);
            lemma_colon_split(decimal(f1 as nat), rotate_kdl(d1), decimal(f2 as nat), rotate_kdl(d2));
            lemma_decimal_injective(f1, f2);
            law_rotate_roundtrip(d1, rotate_kdl(d2));
            law_rotate_roundtrip(d2, rotate_kdl(d1));
        },
        (Trigger::TouchEdge { edge: e1, zone: z1 }, Trigger::TouchEdge { edge: e2, zone: z2 }) => {
            let zs1 = match z1 { Some(z) => zone_kdl(z, e1), None => "full"@ };
            let zs2 = match z2 { Some(z) => zone_kdl(z, e2), None => "full"@ };
            lemma_colon_split(edge_kdl(e1), zs1, edge_kdl(e2), zs2);
            law_edge_roundtrip(e1, edge_kdl(e2));
            reveal_strlit("left");
            assert("left"@ =~= seq!['l', 'e', 'f', 't']);
            reveal_strlit("center");
            assert("center"@ =~= seq!['c', 'e', 'n', 't', 'e', 'r']);
            reveal_strlit("right");
            assert("right"@ =~= seq!['r', 'i', 'g', 'h', 't']);
            reveal_strlit("top");
            assert("top"@ =~= seq!['t', 'o', 'p']);
            reveal_strlit("bottom");
            assert("bottom"@ =~= seq!['b', 'o', 't', 't', 'o', 'm']);
        },
        (Trigger::TouchTap { fingers: f1 }, Trigger::TouchTap { fingers: f2 }) => {
            lemma_decimal_injective(f1, f2);
        },
        (Trigger::TouchpadTapHold { fingers: f1 }, Trigger::TouchpadTapHold { fingers: f2 }) => {
            lemma_decimal_injective(f1, f2);
        },
        (Trigger::TouchpadTapHoldDrag { fingers: f1 }, Trigger::TouchpadTapHoldDrag { fingers: f2 }) => {
            lemma_decimal_injective(f1, f2);
        },
        (Trigger::TouchTapHoldDrag { fingers: f1, direction: d1 }, Trigger::TouchTapHoldDrag { fingers: f2, direction: d2 }) => {
            let ds1 = match d1 { Some(d) => swipe_kdl(d), None => "any"@ };
            let ds2 = match d2 { Some(d) => swipe_kdl(d), None => "any"@ };
            lemma_decimal_lacks_colon(f1);
            lemma_decimal_lacks_colon(f2);
            lemma_colon_split(decimal(f1 as nat), ds1, decimal(f2 as nat), ds2);
            lemma_decimal_injective(f1, f2);
            reveal_strlit("up");
            assert("up"@ =~= seq!['u', 'p']);
            reveal_strlit("down");
            assert("down"@ =~= seq!['d', 'o', 'w', 'n']);
            reveal_strlit("left");
            assert("left"@ =~= seq!['l', 'e', 'f', 't']);
            reveal_strlit("right");
            assert("right"@ =~= seq!['r', 'i', 'g', 'h', 't']);
        },
        _ => {},
    }
}


// ---------------------------------------------------------------------------
// Writing and reading back binds
// ---------------------------------------------------------------------------

proof fn lemma_prop_absent(s: Seq<EntryView>, k: Seq<char>)
    requires
        forall|i: int| 0 <= i < s.len() ==> s[i].name != Some(k),
    ensures
        prop_value(s, k) is None,
    decreases s.len(),
{
    if s.len() > 0 {
        lemma_prop_absent(s.drop_last(), k);
    }
}

proof fn lemma_prop_concat(a: Seq<EntryView>, b: Seq<EntryView>, k: Seq<char>)
    ensures
        prop_value(a + b, k) == match prop_value(b, k) {
            Some(v) => Some(v),
            None => prop_value(a, k),
        },
    decreases b.len(),
{
    if b.len() == 0 {
        assert(a + b =~= a);
    } else {
        lemma_prop_concat(a, b.drop_last(), k);
        assert((a + b).drop_last() =~= a + b.drop_last());
    }
}

proof fn lemma_lacks_last_index(s: Seq<char>, c: char)
    requires
        lacks(s, c),
    ensures
        last_index_of(s, c) == -1,
    decreases s.len(),
{
    if s.len() > 0 {
        lemma_lacks_last_index(s.drop_last(), c);
    }
}

/// The property keys a bind node uses, spelled out.
proof fn lemma_keys()
    ensures
        "fingers"@ =~= seq!['f', 'i', 'n', 'g', 'e', 'r', 's'],
        "direction"@ =~= seq!['d', 'i', 'r', 'e', 'c', 't', 'i', 'o', 'n'],
        "edge"@ =~= seq!['e', 'd', 'g', 'e'],
        "zone"@ =~= seq!['z', 'o', 'n', 'e'],
        "tag"@ =~= seq!['t', 'a', 'g'],
        "sensitivity"@ =~= seq!['s', 'e', 'n', 's', 'i', 't', 'i', 'v', 'i', 't', 'y'],
        "natural-scroll"@ =~= seq!['n', 'a', 't', 'u', 'r', 'a', 'l', '-', 's', 'c', 'r', 'o', 'l', 'l'],
{
    reveal_strlit("fingers");
    reveal_strlit("direction");
    reveal_strlit("edge");
    reveal_strlit("zone");
    reveal_strlit("tag");
    reveal_strlit("sensitivity");
    reveal_strlit("natural-scroll");
}

proof fn lemma_options_keys(b: BindView)
    ensures
        forall|i: int| 0 <= i < bind_options(b).len() ==> {
            let n = #[trigger] bind_options(b)[i].name;
            &&& n != Some("fingers"@)
            &&& n != Some("direction"@)
            &&& n != Some("edge"@)
            &&& n != Some("zone"@)
        },
{
    lemma_keys();
    let o = bind_options(b);
    assert forall|i: int| 0 <= i < o.len() implies o[i].name == Some("tag"@) || o[i].name == Some(
        "sensitivity"@,
    ) || o[i].name == Some("natural-scroll"@) by {}
}

proof fn lemma_families_lack_plus(t: Trigger)
    ensures
        lacks(spec_kdl_family(t), '+'),
{
    reveal_strlit("TouchSwipe");
    assert("TouchSwipe"@ =~= seq!['T', 'o', 'u', 'c', 'h', 'S', 'w', 'i', 'p', 'e']);
    reveal_strlit("TouchPinch");
    assert("TouchPinch"@ =~= seq!['T', 'o', 'u', 'c', 'h', 'P', 'i', 'n', 'c', 'h']);
    reveal_strlit("TouchRotate");
    assert("TouchRotate"@ =~= seq!['T', 'o', 'u', 'c', 'h', 'R', 'o', 't', 'a', 't', 'e']);
    reveal_strlit("TouchEdge");
    assert("TouchEdge"@ =~= seq!['T', 'o', 'u', 'c', 'h', 'E', 'd', 'g', 'e']);
    reveal_strlit("TouchTap");
    assert("TouchTap"@ =~= seq!['T', 'o', 'u', 'c', 'h', 'T', 'a', 'p']);
    reveal_strlit("TouchTapHoldDrag");
    assert("TouchTapHoldDrag"@ =~= seq!['T', 'o', 'u', 'c', 'h', 'T', 'a', 'p', 'H', 'o', 'l', 'd', 'D', 'r', 'a', 'g']);
    reveal_strlit("TouchpadSwipe");
    assert("TouchpadSwipe"@ =~= seq!['T', 'o', 'u', 'c', 'h', 'p', 'a', 'd', 'S', 'w', 'i', 'p', 'e']);
    reveal_strlit("TouchpadTapHold");
    assert("TouchpadTapHold"@ =~= seq!['T', 'o', 'u', 'c', 'h', 'p', 'a', 'd', 'T', 'a', 'p', 'H', 'o', 'l', 'd']);
    reveal_strlit("TouchpadTapHoldDrag");
    assert("TouchpadTapHoldDrag"@ =~= seq!['T', 'o', 'u', 'c', 'h', 'p', 'a', 'd', 'T', 'a', 'p', 'H', 'o', 'l', 'd', 'D', 'r', 'a', 'g']);
}

/// Every trigger read from a bind node has a finger count in 3..=10, where
/// it has one.
pub proof fn law_parse_node_fingers_in_range(n: NodeView)
    ensures
        spec_parse_node(n) matches Some(t) ==> valid_trigger(t),
        spec_parse_node(n) matches Some(t) ==> (trigger_fingers(t) matches Some(f) ==> MIN_FINGERS
            <= f <= MAX_FINGERS),
{
}

/// A node named after a trigger's family, holding the trigger's
/// properties followed by properties with other keys, reads back as that
/// trigger exactly when the trigger is valid.
pub proof fn law_trigger_node_roundtrip(t: Trigger, extra: Seq<EntryView>, n: NodeView)
    requires
        n.label == spec_kdl_family(t),
        n.entries == spec_props(t) + extra,
        forall|i: int| 0 <= i < extra.len() ==> {
            let k = #[trigger] extra[i].name;
            &&& k != Some("fingers"@)
            &&& k != Some("direction"@)
            &&& k != Some("edge"@)
            &&& k != Some("zone"@)
        },
    ensures
        spec_parse_node(n) == if valid_trigger(t) {
            Some(t)
        } else {
            None
        },
{
    lemma_keys();
    lemma_families_lack_plus(t);
    lemma_lacks_last_index(spec_kdl_family(t), '+');
    assert(family_part(n.label) =~= spec_kdl_family(t));
    lemma_families_distinct(t, t);
    lemma_prop_absent(extra, "fingers"@);
    lemma_prop_absent(extra, "direction"@);
    lemma_prop_absent(extra, "edge"@);
    lemma_prop_absent(extra, "zone"@);
    let p = spec_props(t);
    lemma_prop_concat(p, extra, "fingers"@);
    lemma_prop_concat(p, extra, "direction"@);
    lemma_prop_concat(p, extra, "edge"@);
    lemma_prop_concat(p, extra, "zone"@);
    reveal_with_fuel(prop_value, 3);
    reveal_strlit("TouchSwipe");
    reveal_strlit("TouchPinch");
    reveal_strlit("TouchRotate");
    reveal_strlit("TouchEdge");
    reveal_strlit("TouchTap");
    reveal_strlit("TouchTapHoldDrag");
    reveal_strlit("TouchpadSwipe");
    reveal_strlit("TouchpadTapHold");
    reveal_strlit("TouchpadTapHoldDrag");
    match t {
        Trigger::TouchSwipe { fingers, direction } => {
            assert(p.drop_last() =~= seq![p[0]]);
            law_swipe_roundtrip(direction, swipe_kdl(direction));
        },
        Trigger::TouchpadSwipe { fingers, direction } => {
            assert(p.drop_last() =~= seq![p[0]]);
            law_swipe_roundtrip(direction, swipe_kdl(direction));
        },
        Trigger::TouchPinch { fingers, direction } => {
            assert(p.drop_last() =~= seq![p[0]]);
            law_pinch_roundtrip(direction, pinch_kdl(direction));
        },
        Trigger::TouchRotate { fingers, direction } => {
            assert(p.drop_last() =~= seq![p[0]]);
            law_rotate_roundtrip(direction, rotate_kdl(direction));
        },
        Trigger::TouchEdge { edge, zone } => {
            law_edge_roundtrip(edge, edge_kdl(edge));
            match zone {
                Some(z) => {
                    assert(p.drop_last() =~= seq![p[0]]);
                    law_zone_roundtrip(z, edge, zone_kdl(z, edge));
                },
                None => {},
            }
        },
        Trigger::TouchTapHoldDrag { fingers, direction } => {
            match direction {
                Some(d) => {
                    assert(p.drop_last() =~= seq![p[0]]);
                    law_swipe_roundtrip(d, swipe_kdl(d));
                },
                None => {},
            }
        },
        _ => {},
    }
}


proof fn lemma_action_args(args: Seq<Seq<char>>)
    ensures
        action_args_of(args.map_values(|a: Seq<char>| action_arg(a))) == args,
    decreases args.len(),
{
    if args.len() > 0 {
        lemma_action_args(args.drop_last());
        assert(args.map_values(|a: Seq<char>| action_arg(a)).drop_last() =~= args.drop_last().map_values(
            |a: Seq<char>| action_arg(a),
        ));
        assert(args.drop_last().push(args.last()) =~= args);
    } else {
        assert(args =~= Seq::<Seq<char>>::empty());
    }
}

/// A bind survives being written and read back: it is enabled, its trigger
/// is valid and it names an action.
pub open spec fn survives_write(b: BindView) -> bool {
    b.enabled && valid_trigger(b.trigger) && b.action_name.len() > 0
}

/// The binds of `bs` that survive being written, in order.
pub open spec fn kept_binds(bs: Seq<BindView>) -> Seq<BindView>
    decreases bs.len(),
{
    if bs.len() == 0 {
        Seq::empty()
    } else {
        let prev = kept_binds(bs.drop_last());
        if survives_write(bs.last()) {
            prev.push(bs.last())
        } else {
            prev
        }
    }
}

proof fn lemma_read_bind_node(b: BindView)
    requires
        b.enabled,
    ensures
        spec_read_bind(bind_node(b)) == if survives_write(b) {
            Some(b)
        } else {
            None
        },
{
    let n = bind_node(b);
    lemma_options_keys(b);
    law_trigger_node_roundtrip(b.trigger, bind_options(b), n);
    lemma_action_args(b.action_args);
    assert(action_node_of(n) == Some(action_node(b)));
    lemma_keys();
    let o = bind_options(b);
    let p = spec_props(b.trigger);
    // the trigger's own properties never use the option keys
    assert forall|i: int| 0 <= i < p.len() implies {
        let k = #[trigger] p[i].name;
        &&& k != Some("tag"@)
        &&& k != Some("sensitivity"@)
        &&& k != Some("natural-scroll"@)
    } by {
        assert(p[i].name == Some("fingers"@) || p[i].name == Some("direction"@) || p[i].name == Some(
            "edge"@,
        ) || p[i].name == Some("zone"@));
    }
    lemma_prop_absent(p, "tag"@);
    lemma_prop_absent(p, "sensitivity"@);
    lemma_prop_absent(p, "natural-scroll"@);
    lemma_prop_concat(p, o, "tag"@);
    lemma_prop_concat(p, o, "sensitivity"@);
    lemma_prop_concat(p, o, "natural-scroll"@);
    reveal_with_fuel(prop_value, 4);
    let tag_part: Seq<EntryView> = match b.tag {
        Some(t) => seq![string_prop("tag"@, t)],
        None => Seq::empty(),
    };
    let sens_part: Seq<EntryView> = match b.sensitivity {
        Some(r) => seq![sensitivity_prop(r)],
        None => Seq::empty(),
    };
    let ns_part: Seq<EntryView> = if b.natural_scroll {
        seq![natural_scroll_prop()]
    } else {
        Seq::empty()
    };
    assert(o == tag_part + sens_part + ns_part);
    lemma_prop_concat(tag_part + sens_part, ns_part, "tag"@);
    lemma_prop_concat(tag_part, sens_part, "tag"@);
    lemma_prop_concat(tag_part + sens_part, ns_part, "sensitivity"@);
    lemma_prop_concat(tag_part, sens_part, "sensitivity"@);
    lemma_prop_concat(tag_part + sens_part, ns_part, "natural-scroll"@);
    lemma_prop_concat(tag_part, sens_part, "natural-scroll"@);
    assert(prop_str(n, "tag"@) == b.tag);
    assert(sensitivity_of(n) == b.sensitivity);
    assert(natural_scroll_of(n) == b.natural_scroll);
}

/// Writing a list of binds as a `binds {}` block and reading the block
/// back gives the binds that are enabled, have a valid trigger and name an
/// action, in their order and unchanged.
pub proof fn law_binds_roundtrip(bs: Seq<BindView>)
    ensures
        spec_read_binds(bind_nodes(bs)) == kept_binds(bs),
    decreases bs.len(),
{
    if bs.len() > 0 {
        law_binds_roundtrip(bs.drop_last());
        let prev = bind_nodes(bs.drop_last());
        if bs.last().enabled {
            lemma_read_bind_node(bs.last());
            assert(prev.push(bind_node(bs.last())).drop_last() =~= prev);
        }
    }
}


// ---------------------------------------------------------------------------
// Writing and reading back settings
// ---------------------------------------------------------------------------

/// The node names of the gesture files, spelled out.
proof fn lemma_node_names()
    ensures
        "input"@ =~= seq!['i', 'n', 'p', 'u', 't'],
        "touchscreen"@ =~= seq!['t', 'o', 'u', 'c', 'h', 's', 'c', 'r', 'e', 'e', 'n'],
        "touchpad"@ =~= seq!['t', 'o', 'u', 'c', 'h', 'p', 'a', 'd'],
        "gestures"@ =~= seq!['g', 'e', 's', 't', 'u', 'r', 'e', 's'],
        "binds"@ =~= seq!['b', 'i', 'n', 'd', 's'],
        "off"@ =~= seq!['o', 'f', 'f'],
        "natural-scroll"@ =~= seq!['n', 'a', 't', 'u', 'r', 'a', 'l', '-', 's', 'c', 'r', 'o', 'l', 'l'],
        "map-to-output"@ =~= seq!['m', 'a', 'p', '-', 't', 'o', '-', 'o', 'u', 't', 'p', 'u', 't'],
        "swipe-trigger-distance"@ =~= seq!['s', 'w', 'i', 'p', 'e', '-', 't', 'r', 'i', 'g', 'g', 'e', 'r', '-', 'd', 'i', 's', 't', 'a', 'n', 'c', 'e'],
        "edge-start-distance"@ =~= seq!['e', 'd', 'g', 'e', '-', 's', 't', 'a', 'r', 't', '-', 'd', 'i', 's', 't', 'a', 'n', 'c', 'e'],
        "pinch-trigger-distance"@ =~= seq!['p', 'i', 'n', 'c', 'h', '-', 't', 'r', 'i', 'g', 'g', 'e', 'r', '-', 'd', 'i', 's', 't', 'a', 'n', 'c', 'e'],
        "pinch-dominance-ratio"@ =~= seq!['p', 'i', 'n', 'c', 'h', '-', 'd', 'o', 'm', 'i', 'n', 'a', 'n', 'c', 'e', '-', 'r', 'a', 't', 'i', 'o'],
        "pinch-sensitivity"@ =~= seq!['p', 'i', 'n', 'c', 'h', '-', 's', 'e', 'n', 's', 'i', 't', 'i', 'v', 'i', 't', 'y'],
        "swipe-multi-finger-scale"@ =~= seq!['s', 'w', 'i', 'p', 'e', '-', 'm', 'u', 'l', 't', 'i', '-', 'f', 'i', 'n', 'g', 'e', 'r', '-', 's', 'c', 'a', 'l', 'e'],
        "rotation-trigger-angle"@ =~= seq!['r', 'o', 't', 'a', 't', 'i', 'o', 'n', '-', 't', 'r', 'i', 'g', 'g', 'e', 'r', '-', 'a', 'n', 'g', 'l', 'e'],
        "rotation-dominance-ratio"@ =~= seq!['r', 'o', 't', 'a', 't', 'i', 'o', 'n', '-', 'd', 'o', 'm', 'i', 'n', 'a', 'n', 'c', 'e', '-', 'r', 'a', 't', 'i', 'o'],
        "rotation-progress-angle"@ =~= seq!['r', 'o', 't', 'a', 't', 'i', 'o', 'n', '-', 'p', 'r', 'o', 'g', 'r', 'e', 's', 's', '-', 'a', 'n', 'g', 'l', 'e'],
        "tap-wobble-threshold"@ =~= seq!['t', 'a', 'p', '-', 'w', 'o', 'b', 'b', 'l', 'e', '-', 't', 'h', 'r', 'e', 's', 'h', 'o', 'l', 'd'],
        "tap-timeout-ms"@ =~= seq!['t', 'a', 'p', '-', 't', 'i', 'm', 'e', 'o', 'u', 't', '-', 'm', 's'],
        "tap-hold-trigger-delay-ms"@ =~= seq!['t', 'a', 'p', '-', 'h', 'o', 'l', 'd', '-', 't', 'r', 'i', 'g', 'g', 'e', 'r', '-', 'd', 'e', 'l', 'a', 'y', '-', 'm', 's'],
        "swipe-progress-distance"@ =~= seq!['s', 'w', 'i', 'p', 'e', '-', 'p', 'r', 'o', 'g', 'r', 'e', 's', 's', '-', 'd', 'i', 's', 't', 'a', 'n', 'c', 'e'],
        "tap"@ =~= seq!['t', 'a', 'p'],
        "dwt"@ =~= seq!['d', 'w', 't'],
        "dwtp"@ =~= seq!['d', 'w', 't', 'p'],
        "drag"@ =~= seq!['d', 'r', 'a', 'g'],
        "drag-lock"@ =~= seq!['d', 'r', 'a', 'g', '-', 'l', 'o', 'c', 'k'],
        "click-method"@ =~= seq!['c', 'l', 'i', 'c', 'k', '-', 'm', 'e', 't', 'h', 'o', 'd'],
        "accel-speed"@ =~= seq!['a', 'c', 'c', 'e', 'l', '-', 's', 'p', 'e', 'e', 'd'],
        "accel-profile"@ =~= seq!['a', 'c', 'c', 'e', 'l', '-', 'p', 'r', 'o', 'f', 'i', 'l', 'e'],
        "scroll-method"@ =~= seq!['s', 'c', 'r', 'o', 'l', 'l', '-', 'm', 'e', 't', 'h', 'o', 'd'],
        "scroll-button"@ =~= seq!['s', 'c', 'r', 'o', 'l', 'l', '-', 'b', 'u', 't', 't', 'o', 'n'],
        "scroll-button-lock"@ =~= seq!['s', 'c', 'r', 'o', 'l', 'l', '-', 'b', 'u', 't', 't', 'o', 'n', '-', 'l', 'o', 'c', 'k'],
        "tap-button-map"@ =~= seq!['t', 'a', 'p', '-', 'b', 'u', 't', 't', 'o', 'n', '-', 'm', 'a', 'p'],
        "left-handed"@ =~= seq!['l', 'e', 'f', 't', '-', 'h', 'a', 'n', 'd', 'e', 'd'],
        "disabled-on-external-mouse"@ =~= seq!['d', 'i', 's', 'a', 'b', 'l', 'e', 'd', '-', 'o', 'n', '-', 'e', 'x', 't', 'e', 'r', 'n', 'a', 'l', '-', 'm', 'o', 'u', 's', 'e'],
        "middle-emulation"@ =~= seq!['m', 'i', 'd', 'd', 'l', 'e', '-', 'e', 'm', 'u', 'l', 'a', 't', 'i', 'o', 'n'],
        "scroll-factor"@ =~= seq!['s', 'c', 'r', 'o', 'l', 'l', '-', 'f', 'a', 'c', 't', 'o', 'r'],
{
    reveal_strlit("input");
    reveal_strlit("touchscreen");
    reveal_strlit("touchpad");
    reveal_strlit("gestures");
    reveal_strlit("binds");
    reveal_strlit("off");
    reveal_strlit("natural-scroll");
    reveal_strlit("map-to-output");
    reveal_strlit("swipe-trigger-distance");
    reveal_strlit("edge-start-distance");
    reveal_strlit("pinch-trigger-distance");
    reveal_strlit("pinch-dominance-ratio");
    reveal_strlit("pinch-sensitivity");
    reveal_strlit("swipe-multi-finger-scale");
    reveal_strlit("rotation-trigger-angle");
    reveal_strlit("rotation-dominance-ratio");
    reveal_strlit("rotation-progress-angle");
    reveal_strlit("tap-wobble-threshold");
    reveal_strlit("tap-timeout-ms");
    reveal_strlit("tap-hold-trigger-delay-ms");
    reveal_strlit("swipe-progress-distance");
    reveal_strlit("tap");
    reveal_strlit("dwt");
    reveal_strlit("dwtp");
    reveal_strlit("drag");
    reveal_strlit("drag-lock");
    reveal_strlit("click-method");
    reveal_strlit("accel-speed");
    reveal_strlit("accel-profile");
    reveal_strlit("scroll-method");
    reveal_strlit("scroll-button");
    reveal_strlit("scroll-button-lock");
    reveal_strlit("tap-button-map");
    reveal_strlit("left-handed");
    reveal_strlit("disabled-on-external-mouse");
    reveal_strlit("middle-emulation");
    reveal_strlit("scroll-factor");
}

proof fn lemma_find_concat_rec(a: Seq<NodeView>, b: Seq<NodeView>, q: Seq<char>)
    ensures
        find_node(a + b, q) == match find_node(a, q) {
            Some(x) => Some(x),
            None => find_node(b, q),
        },
    decreases a.len(),
{
    if a.len() > 0 {
        lemma_find_concat_rec(a.drop_first(), b, q);
        assert((a + b).drop_first() =~= a.drop_first() + b);
    } else {
        assert(a + b =~= b);
    }
}

/// Looking a name up in two blocks one after the other.
pub broadcast proof fn lemma_find_concat(a: Seq<NodeView>, b: Seq<NodeView>, q: Seq<char>)
    ensures
        #[trigger] find_node(a + b, q) == match find_node(a, q) {
            Some(x) => Some(x),
            None => find_node(b, q),
        },
{
    lemma_find_concat_rec(a, b, q);
}

/// Looking a name up in an optional node.
pub broadcast proof fn lemma_find_optional(p: bool, n: NodeView, q: Seq<char>)
    ensures
        #[trigger] find_node(optional(p, n), q) == if p && n.name == q {
            Some(n)
        } else {
            None
        },
{
    reveal(optional);
    if p {
        assert(seq![n].drop_first() =~= Seq::<NodeView>::empty());
        assert(find_node(Seq::<NodeView>::empty(), q) is None);
    }
}

/// Looking a name up in a single node.
pub broadcast proof fn lemma_find_single(n: NodeView, q: Seq<char>)
    ensures
        #[trigger] find_node(seq![n], q) == if n.name == q {
            Some(n)
        } else {
            None
        },
{
    assert(seq![n].drop_first() =~= Seq::<NodeView>::empty());
    assert(find_node(Seq::<NodeView>::empty(), q) is None);
}

proof fn lemma_document_binds(first: NodeView, bs: Seq<BindView>)
    requires
        first.name != "binds"@,
    ensures
        crate::settings::document_binds(seq![first] + binds_block(bs)) == kept_binds(bs),
{
    broadcast use lemma_find_concat, lemma_find_single;
    lemma_node_names();
    if bs.len() > 0 {
        law_binds_roundtrip(bs);
    } else {
        assert(seq![first] + binds_block(bs) =~= seq![first]);
    }
}

proof fn lemma_touchscreen_gestures(s: TouchscreenView)
    ensures
        spec_read_float_arg(touchscreen_gestures(s), "swipe-trigger-distance"@) == Some(s.swipe_trigger_distance),
        spec_read_float_arg(touchscreen_gestures(s), "edge-start-distance"@) == Some(s.edge_start_distance),
        spec_read_float_arg(touchscreen_gestures(s), "pinch-trigger-distance"@) == Some(s.pinch_trigger_distance),
        spec_read_float_arg(touchscreen_gestures(s), "pinch-dominance-ratio"@) == Some(s.pinch_dominance_ratio),
        spec_read_float_arg(touchscreen_gestures(s), "pinch-sensitivity"@) == Some(s.pinch_sensitivity),
        spec_read_float_arg(touchscreen_gestures(s), "swipe-multi-finger-scale"@) == Some(s.swipe_multi_finger_scale),
        spec_read_float_arg(touchscreen_gestures(s), "rotation-trigger-angle"@) == Some(s.rotation_trigger_angle),
        spec_read_float_arg(touchscreen_gestures(s), "rotation-dominance-ratio"@) == Some(s.rotation_dominance_ratio),
        spec_read_float_arg(touchscreen_gestures(s), "rotation-progress-angle"@) == Some(s.rotation_progress_angle),
        spec_read_float_arg(touchscreen_gestures(s), "tap-wobble-threshold"@) == Some(s.tap_wobble_threshold),
        spec_read_float_arg(touchscreen_gestures(s), "tap-timeout-ms"@) == Some(s.tap_timeout_ms),
        spec_read_float_arg(touchscreen_gestures(s), "tap-hold-trigger-delay-ms"@) == Some(s.tap_hold_trigger_delay_ms),
        spec_read_float_arg(touchscreen_gestures(s), "swipe-progress-distance"@) == Some(s.swipe_progress_distance),
{
    lemma_node_names();
    reveal_with_fuel(find_node, 14);
}

/// Writing touchscreen settings and reading the file back gives the same
/// settings, with the binds that survive being written (see
/// `law_binds_roundtrip`).
pub proof fn law_touchscreen_roundtrip(s: TouchscreenView)
    ensures
        spec_parse_touchscreen(spec_touchscreen_document(s)) == (TouchscreenView {
            binds: kept_binds(s.binds),
            ..s
        }),
{
    broadcast use lemma_find_concat, lemma_find_optional, lemma_find_single;
    lemma_node_names();
    let body = touchscreen_body(s);
    let inp = input_block("touchscreen"@, body);
    lemma_document_binds(inp, s.binds);
    lemma_touchscreen_gestures(s);
}


proof fn lemma_distinct_off()
    ensures
        "off"@ != "tap"@,
        "off"@ != "dwt"@,
        "off"@ != "dwtp"@,
        "off"@ != "drag"@,
        "off"@ != "drag-lock"@,
        "off"@ != "natural-scroll"@,
        "off"@ != "click-method"@,
        "off"@ != "accel-speed"@,
        "off"@ != "accel-profile"@,
        "off"@ != "scroll-method"@,
        "off"@ != "scroll-button"@,
        "off"@ != "scroll-button-lock"@,
        "off"@ != "tap-button-map"@,
        "off"@ != "left-handed"@,
        "off"@ != "disabled-on-external-mouse"@,
        "off"@ != "middle-emulation"@,
        "off"@ != "scroll-factor"@,
        "off"@ != "gestures"@,
{
    reveal_strlit("off");
    assert("off"@ =~= seq!['o', 'f', 'f']);
    reveal_strlit("tap");
    assert("tap"@ =~= seq!['t', 'a', 'p']);
    reveal_strlit("dwt");
    assert("dwt"@ =~= seq!['d', 'w', 't']);
    reveal_strlit("dwtp");
    assert("dwtp"@ =~= seq!['d', 'w', 't', 'p']);
    reveal_strlit("drag");
    assert("drag"@ =~= seq!['d', 'r', 'a', 'g']);
    reveal_strlit("drag-lock");
    assert("drag-lock"@ =~= seq!['d', 'r', 'a', 'g', '-', 'l', 'o', 'c', 'k']);
    reveal_strlit("natural-scroll");
    assert("natural-scroll"@ =~= seq!['n', 'a', 't', 'u', 'r', 'a', 'l', '-', 's', 'c', 'r', 'o', 'l', 'l']);
    reveal_strlit("click-method");
    assert("click-method"@ =~= seq!['c', 'l', 'i', 'c', 'k', '-', 'm', 'e', 't', 'h', 'o', 'd']);
    reveal_strlit("accel-speed");
    assert("accel-speed"@ =~= seq!['a', 'c', 'c', 'e', 'l', '-', 's', 'p', 'e', 'e', 'd']);
    reveal_strlit("accel-profile");
    assert("accel-profile"@ =~= seq!['a', 'c', 'c', 'e', 'l', '-', 'p', 'r', 'o', 'f', 'i', 'l', 'e']);
    reveal_strlit("scroll-method");
    assert("scroll-method"@ =~= seq!['s', 'c', 'r', 'o', 'l', 'l', '-', 'm', 'e', 't', 'h', 'o', 'd']);
    reveal_strlit("scroll-button");
    assert("scroll-button"@ =~= seq!['s', 'c', 'r', 'o', 'l', 'l', '-', 'b', 'u', 't', 't', 'o', 'n']);
    reveal_strlit("scroll-button-lock");
    assert("scroll-button-lock"@ =~= seq!['s', 'c', 'r', 'o', 'l', 'l', '-', 'b', 'u', 't', 't', 'o', 'n', '-', 'l', 'o', 'c', 'k']);
    reveal_strlit("tap-button-map");
    assert("tap-button-map"@ =~= seq!['t', 'a', 'p', '-', 'b', 'u', 't', 't', 'o', 'n', '-', 'm', 'a', 'p']);
    reveal_strlit("left-handed");
    assert("left-handed"@ =~= seq!['l', 'e', 'f', 't', '-', 'h', 'a', 'n', 'd', 'e', 'd']);
    reveal_strlit("disabled-on-external-mouse");
    assert("disabled-on-external-mouse"@ =~= seq!['d', 'i', 's', 'a', 'b', 'l', 'e', 'd', '-', 'o', 'n', '-', 'e', 'x', 't', 'e', 'r', 'n', 'a', 'l', '-', 'm', 'o', 'u', 's', 'e']);
    reveal_strlit("middle-emulation");
    assert("middle-emulation"@ =~= seq!['m', 'i', 'd', 'd', 'l', 'e', '-', 'e', 'm', 'u', 'l', 'a', 't', 'i', 'o', 'n']);
    reveal_strlit("scroll-factor");
    assert("scroll-factor"@ =~= seq!['s', 'c', 'r', 'o', 'l', 'l', '-', 'f', 'a', 'c', 't', 'o', 'r']);
    reveal_strlit("gestures");
    assert("gestures"@ =~= seq!['g', 'e', 's', 't', 'u', 'r', 'e', 's']);
}

proof fn lemma_distinct_tap()
    ensures
        "tap"@ != "dwt"@,
        "tap"@ != "dwtp"@,
        "tap"@ != "drag"@,
        "tap"@ != "drag-lock"@,
        "tap"@ != "natural-scroll"@,
        "tap"@ != "click-method"@,
        "tap"@ != "accel-speed"@,
        "tap"@ != "accel-profile"@,
        "tap"@ != "scroll-method"@,
        "tap"@ != "scroll-button"@,
        "tap"@ != "scroll-button-lock"@,
        "tap"@ != "tap-button-map"@,
        "tap"@ != "left-handed"@,
        "tap"@ != "disabled-on-external-mouse"@,
        "tap"@ != "middle-emulation"@,
        "tap"@ != "scroll-factor"@,
        "tap"@ != "gestures"@,
{
    reveal_strlit("tap");
    assert("tap"@ =~= seq!['t', 'a', 'p']);
    reveal_strlit("dwt");
    assert("dwt"@ =~= seq!['d', 'w', 't']);
    reveal_strlit("dwtp");
    assert("dwtp"@ =~= seq!['d', 'w', 't', 'p']);
    reveal_strlit("drag");
    assert("drag"@ =~= seq!['d', 'r', 'a', 'g']);
    reveal_strlit("drag-lock");
    assert("drag-lock"@ =~= seq!['d', 'r', 'a', 'g', '-', 'l', 'o', 'c', 'k']);
    reveal_strlit("natural-scroll");
    assert("natural-scroll"@ =~= seq!['n', 'a', 't', 'u', 'r', 'a', 'l', '-', 's', 'c', 'r', 'o', 'l', 'l']);
    reveal_strlit("click-method");
    assert("click-method"@ =~= seq!['c', 'l', 'i', 'c', 'k', '-', 'm', 'e', 't', 'h', 'o', 'd']);
    reveal_strlit("accel-speed");
    assert("accel-speed"@ =~= seq!['a', 'c', 'c', 'e', 'l', '-', 's', 'p', 'e', 'e', 'd']);
    reveal_strlit("accel-profile");
    assert("accel-profile"@ =~= seq!['a', 'c', 'c', 'e', 'l', '-', 'p', 'r', 'o', 'f', 'i', 'l', 'e']);
    reveal_strlit("scroll-method");
    assert("scroll-method"@ =~= seq!['s', 'c', 'r', 'o', 'l', 'l', '-', 'm', 'e', 't', 'h', 'o', 'd']);
    reveal_strlit("scroll-button");
    assert("scroll-button"@ =~= seq!['s', 'c', 'r', 'o', 'l', 'l', '-', 'b', 'u', 't', 't', 'o', 'n']);
    reveal_strlit("scroll-button-lock");
    assert("scroll-button-lock"@ =~= seq!['s', 'c', 'r', 'o', 'l', 'l', '-', 'b', 'u', 't', 't', 'o', 'n', '-', 'l', 'o', 'c', 'k']);
    reveal_strlit("tap-button-map");
    assert("tap-button-map"@ =~= seq!['t', 'a', 'p', '-', 'b', 'u', 't', 't', 'o', 'n', '-', 'm', 'a', 'p']);
    reveal_strlit("left-handed");
    assert("left-handed"@ =~= seq!['l', 'e', 'f', 't', '-', 'h', 'a', 'n', 'd', 'e', 'd']);
    reveal_strlit("disabled-on-external-mouse");
    assert("disabled-on-external-mouse"@ =~= seq!['d', 'i', 's', 'a', 'b', 'l', 'e', 'd', '-', 'o', 'n', '-', 'e', 'x', 't', 'e', 'r', 'n', 'a', 'l', '-', 'm', 'o', 'u', 's', 'e']);
    reveal_strlit("middle-emulation");
    assert("middle-emulation"@ =~= seq!['m', 'i', 'd', 'd', 'l', 'e', '-', 'e', 'm', 'u', 'l', 'a', 't', 'i', 'o', 'n']);
    reveal_strlit("scroll-factor");
    assert("scroll-factor"@ =~= seq!['s', 'c', 'r', 'o', 'l', 'l', '-', 'f', 'a', 'c', 't', 'o', 'r']);
    reveal_strlit("gestures");
    assert("gestures"@ =~= seq!['g', 'e', 's', 't', 'u', 'r', 'e', 's']);
}

proof fn lemma_distinct_dwt()
    ensures
        "dwt"@ != "dwtp"@,
        "dwt"@ != "drag"@,
        "dwt"@ != "drag-lock"@,
        "dwt"@ != "natural-scroll"@,
        "dwt"@ != "click-method"@,
        "dwt"@ != "accel-speed"@,
        "dwt"@ != "accel-profile"@,
        "dwt"@ != "scroll-method"@,
        "dwt"@ != "scroll-button"@,
        "dwt"@ != "scroll-button-lock"@,
        "dwt"@ != "tap-button-map"@,
        "dwt"@ != "left-handed"@,
        "dwt"@ != "disabled-on-external-mouse"@,
        "dwt"@ != "middle-emulation"@,
        "dwt"@ != "scroll-factor"@,
        "dwt"@ != "gestures"@,
{
    reveal_strlit("dwt");
    assert("dwt"@ =~= seq!['d', 'w', 't']);
    reveal_strlit("dwtp");
    assert("dwtp"@ =~= seq!['d', 'w', 't', 'p']);
    reveal_strlit("drag");
    assert("drag"@ =~= seq!['d', 'r', 'a', 'g']);
    reveal_strlit("drag-lock");
    assert("drag-lock"@ =~= seq!['d', 'r', 'a', 'g', '-', 'l', 'o', 'c', 'k']);
    reveal_strlit("natural-scroll");
    assert("natural-scroll"@ =~= seq!['n', 'a', 't', 'u', 'r', 'a', 'l', '-', 's', 'c', 'r', 'o', 'l', 'l']);
    reveal_strlit("click-method");
    assert("click-method"@ =~= seq!['c', 'l', 'i', 'c', 'k', '-', 'm', 'e', 't', 'h', 'o', 'd']);
    reveal_strlit("accel-speed");
    assert("accel-speed"@ =~= seq!['a', 'c', 'c', 'e', 'l', '-', 's', 'p', 'e', 'e', 'd']);
    reveal_strlit("accel-profile");
    assert("accel-profile"@ =~= seq!['a', 'c', 'c', 'e', 'l', '-', 'p', 'r', 'o', 'f', 'i', 'l', 'e']);
    reveal_strlit("scroll-method");
    assert("scroll-method"@ =~= seq!['s', 'c', 'r', 'o', 'l', 'l', '-', 'm', 'e', 't', 'h', 'o', 'd']);
    reveal_strlit("scroll-button");
    assert("scroll-button"@ =~= seq!['s', 'c', 'r', 'o', 'l', 'l', '-', 'b', 'u', 't', 't', 'o', 'n']);
    reveal_strlit("scroll-button-lock");
    assert("scroll-button-lock"@ =~= seq!['s', 'c', 'r', 'o', 'l', 'l', '-', 'b', 'u', 't', 't', 'o', 'n', '-', 'l', 'o', 'c', 'k']);
    reveal_strlit("tap-button-map");
    assert("tap-button-map"@ =~= seq!['t', 'a', 'p', '-', 'b', 'u', 't', 't', 'o', 'n', '-', 'm', 'a', 'p']);
    reveal_strlit("left-handed");
    assert("left-handed"@ =~= seq!['l', 'e', 'f', 't', '-', 'h', 'a', 'n', 'd', 'e', 'd']);
    reveal_strlit("disabled-on-external-mouse");
    assert("disabled-on-external-mouse"@ =~= seq!['d', 'i', 's', 'a', 'b', 'l', 'e', 'd', '-', 'o', 'n', '-', 'e', 'x', 't', 'e', 'r', 'n', 'a', 'l', '-', 'm', 'o', 'u', 's', 'e']);
    reveal_strlit("middle-emulation");
    assert("middle-emulation"@ =~= seq!['m', 'i', 'd', 'd', 'l', 'e', '-', 'e', 'm', 'u', 'l', 'a', 't', 'i', 'o', 'n']);
    reveal_strlit("scroll-factor");
    assert("scroll-factor"@ =~= seq!['s', 'c', 'r', 'o', 'l', 'l', '-', 'f', 'a', 'c', 't', 'o', 'r']);
    reveal_strlit("gestures");
    assert("gestures"@ =~= seq!['g', 'e', 's', 't', 'u', 'r', 'e', 's']);
}

proof fn lemma_distinct_dwtp()
    ensures
        "dwtp"@ != "drag"@,
        "dwtp"@ != "drag-lock"@,
        "dwtp"@ != "natural-scroll"@,
        "dwtp"@ != "click-method"@,
        "dwtp"@ != "accel-speed"@,
        "dwtp"@ != "accel-profile"@,
        "dwtp"@ != "scroll-method"@,
        "dwtp"@ != "scroll-button"@,
        "dwtp"@ != "scroll-button-lock"@,
        "dwtp"@ != "tap-button-map"@,
        "dwtp"@ != "left-handed"@,
        "dwtp"@ != "disabled-on-external-mouse"@,
        "dwtp"@ != "middle-emulation"@,
        "dwtp"@ != "scroll-factor"@,
        "dwtp"@ != "gestures"@,
{
    reveal_strlit("dwtp");
    assert("dwtp"@ =~= seq!['d', 'w', 't', 'p']);
    reveal_strlit("drag");
    assert("drag"@ =~= seq!['d', 'r', 'a', 'g']);
    reveal_strlit("drag-lock");
    assert("drag-lock"@ =~= seq!['d', 'r', 'a', 'g', '-', 'l', 'o', 'c', 'k']);
    reveal_strlit("natural-scroll");
    assert("natural-scroll"@ =~= seq!['n', 'a', 't', 'u', 'r', 'a', 'l', '-', 's', 'c', 'r', 'o', 'l', 'l']);
    reveal_strlit("click-method");
    assert("click-method"@ =~= seq!['c', 'l', 'i', 'c', 'k', '-', 'm', 'e', 't', 'h', 'o', 'd']);
    reveal_strlit("accel-speed");
    assert("accel-speed"@ =~= seq!['a', 'c', 'c', 'e', 'l', '-', 's', 'p', 'e', 'e', 'd']);
    reveal_strlit("accel-profile");
    assert("accel-profile"@ =~= seq!['a', 'c', 'c', 'e', 'l', '-', 'p', 'r', 'o', 'f', 'i', 'l', 'e']);
    reveal_strlit("scroll-method");
    assert("scroll-method"@ =~= seq!['s', 'c', 'r', 'o', 'l', 'l', '-', 'm', 'e', 't', 'h', 'o', 'd']);
    reveal_strlit("scroll-button");
    assert("scroll-button"@ =~= seq!['s', 'c', 'r', 'o', 'l', 'l', '-', 'b', 'u', 't', 't', 'o', 'n']);
    reveal_strlit("scroll-button-lock");
    assert("scroll-button-lock"@ =~= seq!['s', 'c', 'r', 'o', 'l', 'l', '-', 'b', 'u', 't', 't', 'o', 'n', '-', 'l', 'o', 'c', 'k']);
    reveal_strlit("tap-button-map");
    assert("tap-button-map"@ =~= seq!['t', 'a', 'p', '-', 'b', 'u', 't', 't', 'o', 'n', '-', 'm', 'a', 'p']);
    reveal_strlit("left-handed");
    assert("left-handed"@ =~= seq!['l', 'e', 'f', 't', '-', 'h', 'a', 'n', 'd', 'e', 'd']);
    reveal_strlit("disabled-on-external-mouse");
    assert("disabled-on-external-mouse"@ =~= seq!['d', 'i', 's', 'a', 'b', 'l', 'e', 'd', '-', 'o', 'n', '-', 'e', 'x', 't', 'e', 'r', 'n', 'a', 'l', '-', 'm', 'o', 'u', 's', 'e']);
    reveal_strlit("middle-emulation");
    assert("middle-emulation"@ =~= seq!['m', 'i', 'd', 'd', 'l', 'e', '-', 'e', 'm', 'u', 'l', 'a', 't', 'i', 'o', 'n']);
    reveal_strlit("scroll-factor");
    assert("scroll-factor"@ =~= seq!['s', 'c', 'r', 'o', 'l', 'l', '-', 'f', 'a', 'c', 't', 'o', 'r']);
    reveal_strlit("gestures");
    assert("gestures"@ =~= seq!['g', 'e', 's', 't', 'u', 'r', 'e', 's']);
}

proof fn lemma_distinct_drag()
    ensures
        "drag"@ != "drag-lock"@,
        "drag"@ != "natural-scroll"@,
        "drag"@ != "click-method"@,
        "drag"@ != "accel-speed"@,
        "drag"@ != "accel-profile"@,
        "drag"@ != "scroll-method"@,
        "drag"@ != "scroll-button"@,
        "drag"@ != "scroll-button-lock"@,
        "drag"@ != "tap-button-map"@,
        "drag"@ != "left-handed"@,
        "drag"@ != "disabled-on-external-mouse"@,
        "drag"@ != "middle-emulation"@,
        "drag"@ != "scroll-factor"@,
        "drag"@ != "gestures"@,
{
    reveal_strlit("drag");
    assert("drag"@ =~= seq!['d', 'r', 'a', 'g']);
    reveal_strlit("drag-lock");
    assert("drag-lock"@ =~= seq!['d', 'r', 'a', 'g', '-', 'l', 'o', 'c', 'k']);
    reveal_strlit("natural-scroll");
    assert("natural-scroll"@ =~= seq!['n', 'a', 't', 'u', 'r', 'a', 'l', '-', 's', 'c', 'r', 'o', 'l', 'l']);
    reveal_strlit("click-method");
    assert("click-method"@ =~= seq!['c', 'l', 'i', 'c', 'k', '-', 'm', 'e', 't', 'h', 'o', 'd']);
    reveal_strlit("accel-speed");
    assert("accel-speed"@ =~= seq!['a', 'c', 'c', 'e', 'l', '-', 's', 'p', 'e', 'e', 'd']);
    reveal_strlit("accel-profile");
    assert("accel-profile"@ =~= seq!['a', 'c', 'c', 'e', 'l', '-', 'p', 'r', 'o', 'f', 'i', 'l', 'e']);
    reveal_strlit("scroll-method");
    assert("scroll-method"@ =~= seq!['s', 'c', 'r', 'o', 'l', 'l', '-', 'm', 'e', 't', 'h', 'o', 'd']);
    reveal_strlit("scroll-button");
    assert("scroll-button"@ =~= seq!['s', 'c', 'r', 'o', 'l', 'l', '-', 'b', 'u', 't', 't', 'o', 'n']);
    reveal_strlit("scroll-button-lock");
    assert("scroll-button-lock"@ =~= seq!['s', 'c', 'r', 'o', 'l', 'l', '-', 'b', 'u', 't', 't', 'o', 'n', '-', 'l', 'o', 'c', 'k']);
    reveal_strlit("tap-button-map");
    assert("tap-button-map"@ =~= seq!['t', 'a', 'p', '-', 'b', 'u', 't', 't', 'o', 'n', '-', 'm', 'a', 'p']);
    reveal_strlit("left-handed");
    assert("left-handed"@ =~= seq!['l', 'e', 'f', 't', '-', 'h', 'a', 'n', 'd', 'e', 'd']);
    reveal_strlit("disabled-on-external-mouse");
    assert("disabled-on-external-mouse"@ =~= seq!['d', 'i', 's', 'a', 'b', 'l', 'e', 'd', '-', 'o', 'n', '-', 'e', 'x', 't', 'e', 'r', 'n', 'a', 'l', '-', 'm', 'o', 'u', 's', 'e']);
    reveal_strlit("middle-emulation");
    assert("middle-emulation"@ =~= seq!['m', 'i', 'd', 'd', 'l', 'e', '-', 'e', 'm', 'u', 'l', 'a', 't', 'i', 'o', 'n']);
    reveal_strlit("scroll-factor");
    assert("scroll-factor"@ =~= seq!['s', 'c', 'r', 'o', 'l', 'l', '-', 'f', 'a', 'c', 't', 'o', 'r']);
    reveal_strlit("gestures");
    assert("gestures"@ =~= seq!['g', 'e', 's', 't', 'u', 'r', 'e', 's']);
}

proof fn lemma_distinct_drag_lock()
    ensures
        "drag-lock"@ != "natural-scroll"@,
        "drag-lock"@ != "click-method"@,
        "drag-lock"@ != "accel-speed"@,
        "drag-lock"@ != "accel-profile"@,
        "drag-lock"@ != "scroll-method"@,
        "drag-lock"@ != "scroll-button"@,
        "drag-lock"@ != "scroll-button-lock"@,
        "drag-lock"@ != "tap-button-map"@,
        "drag-lock"@ != "left-handed"@,
        "drag-lock"@ != "disabled-on-external-mouse"@,
        "drag-lock"@ != "middle-emulation"@,
        "drag-lock"@ != "scroll-factor"@,
        "drag-lock"@ != "gestures"@,
{
    reveal_strlit("drag-lock");
    assert("drag-lock"@ =~= seq!['d', 'r', 'a', 'g', '-', 'l', 'o', 'c', 'k']);
    reveal_strlit("natural-scroll");
    assert("natural-scroll"@ =~= seq!['n', 'a', 't', 'u', 'r', 'a', 'l', '-', 's', 'c', 'r', 'o', 'l', 'l']);
    reveal_strlit("click-method");
    assert("click-method"@ =~= seq!['c', 'l', 'i', 'c', 'k', '-', 'm', 'e', 't', 'h', 'o', 'd']);
    reveal_strlit("accel-speed");
    assert("accel-speed"@ =~= seq!['a', 'c', 'c', 'e', 'l', '-', 's', 'p', 'e', 'e', 'd']);
    reveal_strlit("accel-profile");
    assert("accel-profile"@ =~= seq!['a', 'c', 'c', 'e', 'l', '-', 'p', 'r', 'o', 'f', 'i', 'l', 'e']);
    reveal_strlit("scroll-method");
    assert("scroll-method"@ =~= seq!['s', 'c', 'r', 'o', 'l', 'l', '-', 'm', 'e', 't', 'h', 'o', 'd']);
    reveal_strlit("scroll-button");
    assert("scroll-button"@ =~= seq!['s', 'c', 'r', 'o', 'l', 'l', '-', 'b', 'u', 't', 't', 'o', 'n']);
    reveal_strlit("scroll-button-lock");
    assert("scroll-button-lock"@ =~= seq!['s', 'c', 'r', 'o', 'l', 'l', '-', 'b', 'u', 't', 't', 'o', 'n', '-', 'l', 'o', 'c', 'k']);
    reveal_strlit("tap-button-map");
    assert("tap-button-map"@ =~= seq!['t', 'a', 'p', '-', 'b', 'u', 't', 't', 'o', 'n', '-', 'm', 'a', 'p']);
    reveal_strlit("left-handed");
    assert("left-handed"@ =~= seq!['l', 'e', 'f', 't', '-', 'h', 'a', 'n', 'd', 'e', 'd']);
    reveal_strlit("disabled-on-external-mouse");
    assert("disabled-on-external-mouse"@ =~= seq!['d', 'i', 's', 'a', 'b', 'l', 'e', 'd', '-', 'o', 'n', '-', 'e', 'x', 't', 'e', 'r', 'n', 'a', 'l', '-', 'm', 'o', 'u', 's', 'e']);
    reveal_strlit("middle-emulation");
    assert("middle-emulation"@ =~= seq!['m', 'i', 'd', 'd', 'l', 'e', '-', 'e', 'm', 'u', 'l', 'a', 't', 'i', 'o', 'n']);
    reveal_strlit("scroll-factor");
    assert("scroll-factor"@ =~= seq!['s', 'c', 'r', 'o', 'l', 'l', '-', 'f', 'a', 'c', 't', 'o', 'r']);
    reveal_strlit("gestures");
    assert("gestures"@ =~= seq!['g', 'e', 's', 't', 'u', 'r', 'e', 's']);
}

proof fn lemma_distinct_natural_scroll()
    ensures
        "natural-scroll"@ != "click-method"@,
        "natural-scroll"@ != "accel-speed"@,
        "natural-scroll"@ != "accel-profile"@,
        "natural-scroll"@ != "scroll-method"@,
        "natural-scroll"@ != "scroll-button"@,
        "natural-scroll"@ != "scroll-button-lock"@,
        "natural-scroll"@ != "tap-button-map"@,
        "natural-scroll"@ != "left-handed"@,
        "natural-scroll"@ != "disabled-on-external-mouse"@,
        "natural-scroll"@ != "middle-emulation"@,
        "natural-scroll"@ != "scroll-factor"@,
        "natural-scroll"@ != "gestures"@,
{
    reveal_strlit("natural-scroll");
    assert("natural-scroll"@ =~= seq!['n', 'a', 't', 'u', 'r', 'a', 'l', '-', 's', 'c', 'r', 'o', 'l', 'l']);
    reveal_strlit("click-method");
    assert("click-method"@ =~= seq!['c', 'l', 'i', 'c', 'k', '-', 'm', 'e', 't', 'h', 'o', 'd']);
    reveal_strlit("accel-speed");
    assert("accel-speed"@ =~= seq!['a', 'c', 'c', 'e', 'l', '-', 's', 'p', 'e', 'e', 'd']);
    reveal_strlit("accel-profile");
    assert("accel-profile"@ =~= seq!['a', 'c', 'c', 'e', 'l', '-', 'p', 'r', 'o', 'f', 'i', 'l', 'e']);
    reveal_strlit("scroll-method");
    assert("scroll-method"@ =~= seq!['s', 'c', 'r', 'o', 'l', 'l', '-', 'm', 'e', 't', 'h', 'o', 'd']);
    reveal_strlit("scroll-button");
    assert("scroll-button"@ =~= seq!['s', 'c', 'r', 'o', 'l', 'l', '-', 'b', 'u', 't', 't', 'o', 'n']);
    reveal_strlit("scroll-button-lock");
    assert("scroll-button-lock"@ =~= seq!['s', 'c', 'r', 'o', 'l', 'l', '-', 'b', 'u', 't', 't', 'o', 'n', '-', 'l', 'o', 'c', 'k']);
    reveal_strlit("tap-button-map");
    assert("tap-button-map"@ =~= seq!['t', 'a', 'p', '-', 'b', 'u', 't', 't', 'o', 'n', '-', 'm', 'a', 'p']);
    reveal_strlit("left-handed");
    assert("left-handed"@ =~= seq!['l', 'e', 'f', 't', '-', 'h', 'a', 'n', 'd', 'e', 'd']);
    reveal_strlit("disabled-on-external-mouse");
    assert("disabled-on-external-mouse"@ =~= seq!['d', 'i', 's', 'a', 'b', 'l', 'e', 'd', '-', 'o', 'n', '-', 'e', 'x', 't', 'e', 'r', 'n', 'a', 'l', '-', 'm', 'o', 'u', 's', 'e']);
    reveal_strlit("middle-emulation");
    assert("middle-emulation"@ =~= seq!['m', 'i', 'd', 'd', 'l', 'e', '-', 'e', 'm', 'u', 'l', 'a', 't', 'i', 'o', 'n']);
    reveal_strlit("scroll-factor");
    assert("scroll-factor"@ =~= seq!['s', 'c', 'r', 'o', 'l', 'l', '-', 'f', 'a', 'c', 't', 'o', 'r']);
    reveal_strlit("gestures");
    assert("gestures"@ =~= seq!['g', 'e', 's', 't', 'u', 'r', 'e', 's']);
}

proof fn lemma_distinct_click_method()
    ensures
        "click-method"@ != "accel-speed"@,
        "click-method"@ != "accel-profile"@,
        "click-method"@ != "scroll-method"@,
        "click-method"@ != "scroll-button"@,
        "click-method"@ != "scroll-button-lock"@,
        "click-method"@ != "tap-button-map"@,
        "click-method"@ != "left-handed"@,
        "click-method"@ != "disabled-on-external-mouse"@,
        "click-method"@ != "middle-emulation"@,
        "click-method"@ != "scroll-factor"@,
        "click-method"@ != "gestures"@,
{
    reveal_strlit("click-method");
    assert("click-method"@ =~= seq!['c', 'l', 'i', 'c', 'k', '-', 'm', 'e', 't', 'h', 'o', 'd']);
    reveal_strlit("accel-speed");
    assert("accel-speed"@ =~= seq!['a', 'c', 'c', 'e', 'l', '-', 's', 'p', 'e', 'e', 'd']);
    reveal_strlit("accel-profile");
    assert("accel-profile"@ =~= seq!['a', 'c', 'c', 'e', 'l', '-', 'p', 'r', 'o', 'f', 'i', 'l', 'e']);
    reveal_strlit("scroll-method");
    assert("scroll-method"@ =~= seq!['s', 'c', 'r', 'o', 'l', 'l', '-', 'm', 'e', 't', 'h', 'o', 'd']);
    reveal_strlit("scroll-button");
    assert("scroll-button"@ =~= seq!['s', 'c', 'r', 'o', 'l', 'l', '-', 'b', 'u', 't', 't', 'o', 'n']);
    reveal_strlit("scroll-button-lock");
    assert("scroll-button-lock"@ =~= seq!['s', 'c', 'r', 'o', 'l', 'l', '-', 'b', 'u', 't', 't', 'o', 'n', '-', 'l', 'o', 'c', 'k']);
    reveal_strlit("tap-button-map");
    assert("tap-button-map"@ =~= seq!['t', 'a', 'p', '-', 'b', 'u', 't', 't', 'o', 'n', '-', 'm', 'a', 'p']);
    reveal_strlit("left-handed");
    assert("left-handed"@ =~= seq!['l', 'e', 'f', 't', '-', 'h', 'a', 'n', 'd', 'e', 'd']);
    reveal_strlit("disabled-on-external-mouse");
    assert("disabled-on-external-mouse"@ =~= seq!['d', 'i', 's', 'a', 'b', 'l', 'e', 'd', '-', 'o', 'n', '-', 'e', 'x', 't', 'e', 'r', 'n', 'a', 'l', '-', 'm', 'o', 'u', 's', 'e']);
    reveal_strlit("middle-emulation");
    assert("middle-emulation"@ =~= seq!['m', 'i', 'd', 'd', 'l', 'e', '-', 'e', 'm', 'u', 'l', 'a', 't', 'i', 'o', 'n']);
    reveal_strlit("scroll-factor");
    assert("scroll-factor"@ =~= seq!['s', 'c', 'r', 'o', 'l', 'l', '-', 'f', 'a', 'c', 't', 'o', 'r']);
    reveal_strlit("gestures");
    assert("gestures"@ =~= seq!['g', 'e', 's', 't', 'u', 'r', 'e', 's']);
}

proof fn lemma_distinct_accel_speed()
    ensures
        "accel-speed"@ != "accel-profile"@,
        "accel-speed"@ != "scroll-method"@,
        "accel-speed"@ != "scroll-button"@,
        "accel-speed"@ != "scroll-button-lock"@,
        "accel-speed"@ != "tap-button-map"@,
        "accel-speed"@ != "left-handed"@,
        "accel-speed"@ != "disabled-on-external-mouse"@,
        "accel-speed"@ != "middle-emulation"@,
        "accel-speed"@ != "scroll-factor"@,
        "accel-speed"@ != "gestures"@,
{
    reveal_strlit("accel-speed");
    assert("accel-speed"@ =~= seq!['a', 'c', 'c', 'e', 'l', '-', 's', 'p', 'e', 'e', 'd']);
    reveal_strlit("accel-profile");
    assert("accel-profile"@ =~= seq!['a', 'c', 'c', 'e', 'l', '-', 'p', 'r', 'o', 'f', 'i', 'l', 'e']);
    reveal_strlit("scroll-method");
    assert("scroll-method"@ =~= seq!['s', 'c', 'r', 'o', 'l', 'l', '-', 'm', 'e', 't', 'h', 'o', 'd']);
    reveal_strlit("scroll-button");
    assert("scroll-button"@ =~= seq!['s', 'c', 'r', 'o', 'l', 'l', '-', 'b', 'u', 't', 't', 'o', 'n']);
    reveal_strlit("scroll-button-lock");
    assert("scroll-button-lock"@ =~= seq!['s', 'c', 'r', 'o', 'l', 'l', '-', 'b', 'u', 't', 't', 'o', 'n', '-', 'l', 'o', 'c', 'k']);
    reveal_strlit("tap-button-map");
    assert("tap-button-map"@ =~= seq!['t', 'a', 'p', '-', 'b', 'u', 't', 't', 'o', 'n', '-', 'm', 'a', 'p']);
    reveal_strlit("left-handed");
    assert("left-handed"@ =~= seq!['l', 'e', 'f', 't', '-', 'h', 'a', 'n', 'd', 'e', 'd']);
    reveal_strlit("disabled-on-external-mouse");
    assert("disabled-on-external-mouse"@ =~= seq!['d', 'i', 's', 'a', 'b', 'l', 'e', 'd', '-', 'o', 'n', '-', 'e', 'x', 't', 'e', 'r', 'n', 'a', 'l', '-', 'm', 'o', 'u', 's', 'e']);
    reveal_strlit("middle-emulation");
    assert("middle-emulation"@ =~= seq!['m', 'i', 'd', 'd', 'l', 'e', '-', 'e', 'm', 'u', 'l', 'a', 't', 'i', 'o', 'n']);
    reveal_strlit("scroll-factor");
    assert("scroll-factor"@ =~= seq!['s', 'c', 'r', 'o', 'l', 'l', '-', 'f', 'a', 'c', 't', 'o', 'r']);
    reveal_strlit("gestures");
    assert("gestures"@ =~= seq!['g', 'e', 's', 't', 'u', 'r', 'e', 's']);
}

proof fn lemma_distinct_accel_profile()
    ensures
        "accel-profile"@ != "scroll-method"@,
        "accel-profile"@ != "scroll-button"@,
        "accel-profile"@ != "scroll-button-lock"@,
        "accel-profile"@ != "tap-button-map"@,
        "accel-profile"@ != "left-handed"@,
        "accel-profile"@ != "disabled-on-external-mouse"@,
        "accel-profile"@ != "middle-emulation"@,
        "accel-profile"@ != "scroll-factor"@,
        "accel-profile"@ != "gestures"@,
{
    reveal_strlit("accel-profile");
    assert("accel-profile"@ =~= seq!['a', 'c', 'c', 'e', 'l', '-', 'p', 'r', 'o', 'f', 'i', 'l', 'e']);
    reveal_strlit("scroll-method");
    assert("scroll-method"@ =~= seq!['s', 'c', 'r', 'o', 'l', 'l', '-', 'm', 'e', 't', 'h', 'o', 'd']);
    reveal_strlit("scroll-button");
    assert("scroll-button"@ =~= seq!['s', 'c', 'r', 'o', 'l', 'l', '-', 'b', 'u', 't', 't', 'o', 'n']);
    reveal_strlit("scroll-button-lock");
    assert("scroll-button-lock"@ =~= seq!['s', 'c', 'r', 'o', 'l', 'l', '-', 'b', 'u', 't', 't', 'o', 'n', '-', 'l', 'o', 'c', 'k']);
    reveal_strlit("tap-button-map");
    assert("tap-button-map"@ =~= seq!['t', 'a', 'p', '-', 'b', 'u', 't', 't', 'o', 'n', '-', 'm', 'a', 'p']);
    reveal_strlit("left-handed");
    assert("left-handed"@ =~= seq!['l', 'e', 'f', 't', '-', 'h', 'a', 'n', 'd', 'e', 'd']);
    reveal_strlit("disabled-on-external-mouse");
    assert("disabled-on-external-mouse"@ =~= seq!['d', 'i', 's', 'a', 'b', 'l', 'e', 'd', '-', 'o', 'n', '-', 'e', 'x', 't', 'e', 'r', 'n', 'a', 'l', '-', 'm', 'o', 'u', 's', 'e']);
    reveal_strlit("middle-emulation");
    assert("middle-emulation"@ =~= seq!['m', 'i', 'd', 'd', 'l', 'e', '-', 'e', 'm', 'u', 'l', 'a', 't', 'i', 'o', 'n']);
    reveal_strlit("scroll-factor");
    assert("scroll-factor"@ =~= seq!['s', 'c', 'r', 'o', 'l', 'l', '-', 'f', 'a', 'c', 't', 'o', 'r']);
    reveal_strlit("gestures");
    assert("gestures"@ =~= seq!['g', 'e', 's', 't', 'u', 'r', 'e', 's']);
}

proof fn lemma_distinct_scroll_method()
    ensures
        "scroll-method"@ != "scroll-button"@,
        "scroll-method"@ != "scroll-button-lock"@,
        "scroll-method"@ != "tap-button-map"@,
        "scroll-method"@ != "left-handed"@,
        "scroll-method"@ != "disabled-on-external-mouse"@,
        "scroll-method"@ != "middle-emulation"@,
        "scroll-method"@ != "scroll-factor"@,
        "scroll-method"@ != "gestures"@,
{
    reveal_strlit("scroll-method");
    assert("scroll-method"@ =~= seq!['s', 'c', 'r', 'o', 'l', 'l', '-', 'm', 'e', 't', 'h', 'o', 'd']);
    reveal_strlit("scroll-button");
    assert("scroll-button"@ =~= seq!['s', 'c', 'r', 'o', 'l', 'l', '-', 'b', 'u', 't', 't', 'o', 'n']);
    reveal_strlit("scroll-button-lock");
    assert("scroll-button-lock"@ =~= seq!['s', 'c', 'r', 'o', 'l', 'l', '-', 'b', 'u', 't', 't', 'o', 'n', '-', 'l', 'o', 'c', 'k']);
    reveal_strlit("tap-button-map");
    assert("tap-button-map"@ =~= seq!['t', 'a', 'p', '-', 'b', 'u', 't', 't', 'o', 'n', '-', 'm', 'a', 'p']);
    reveal_strlit("left-handed");
    assert("left-handed"@ =~= seq!['l', 'e', 'f', 't', '-', 'h', 'a', 'n', 'd', 'e', 'd']);
    reveal_strlit("disabled-on-external-mouse");
    assert("disabled-on-external-mouse"@ =~= seq!['d', 'i', 's', 'a', 'b', 'l', 'e', 'd', '-', 'o', 'n', '-', 'e', 'x', 't', 'e', 'r', 'n', 'a', 'l', '-', 'm', 'o', 'u', 's', 'e']);
    reveal_strlit("middle-emulation");
    assert("middle-emulation"@ =~= seq!['m', 'i', 'd', 'd', 'l', 'e', '-', 'e', 'm', 'u', 'l', 'a', 't', 'i', 'o', 'n']);
    reveal_strlit("scroll-factor");
    assert("scroll-factor"@ =~= seq!['s', 'c', 'r', 'o', 'l', 'l', '-', 'f', 'a', 'c', 't', 'o', 'r']);
    reveal_strlit("gestures");
    assert("gestures"@ =~= seq!['g', 'e', 's', 't', 'u', 'r', 'e', 's']);
}

proof fn lemma_distinct_scroll_button()
    ensures
        "scroll-button"@ != "scroll-button-lock"@,
        "scroll-button"@ != "tap-button-map"@,
        "scroll-button"@ != "left-handed"@,
        "scroll-button"@ != "disabled-on-external-mouse"@,
        "scroll-button"@ != "middle-emulation"@,
        "scroll-button"@ != "scroll-factor"@,
        "scroll-button"@ != "gestures"@,
{
    reveal_strlit("scroll-button");
    assert("scroll-button"@ =~= seq!['s', 'c', 'r', 'o', 'l', 'l', '-', 'b', 'u', 't', 't', 'o', 'n']);
    reveal_strlit("scroll-button-lock");
    assert("scroll-button-lock"@ =~= seq!['s', 'c', 'r', 'o', 'l', 'l', '-', 'b', 'u', 't', 't', 'o', 'n', '-', 'l', 'o', 'c', 'k']);
    reveal_strlit("tap-button-map");
    assert("tap-button-map"@ =~= seq!['t', 'a', 'p', '-', 'b', 'u', 't', 't', 'o', 'n', '-', 'm', 'a', 'p']);
    reveal_strlit("left-handed");
    assert("left-handed"@ =~= seq!['l', 'e', 'f', 't', '-', 'h', 'a', 'n', 'd', 'e', 'd']);
    reveal_strlit("disabled-on-external-mouse");
    assert("disabled-on-external-mouse"@ =~= seq!['d', 'i', 's', 'a', 'b', 'l', 'e', 'd', '-', 'o', 'n', '-', 'e', 'x', 't', 'e', 'r', 'n', 'a', 'l', '-', 'm', 'o', 'u', 's', 'e']);
    reveal_strlit("middle-emulation");
    assert("middle-emulation"@ =~= seq!['m', 'i', 'd', 'd', 'l', 'e', '-', 'e', 'm', 'u', 'l', 'a', 't', 'i', 'o', 'n']);
    reveal_strlit("scroll-factor");
    assert("scroll-factor"@ =~= seq!['s', 'c', 'r', 'o', 'l', 'l', '-', 'f', 'a', 'c', 't', 'o', 'r']);
    reveal_strlit("gestures");
    assert("gestures"@ =~= seq!['g', 'e', 's', 't', 'u', 'r', 'e', 's']);
}

proof fn lemma_distinct_scroll_button_lock()
    ensures
        "scroll-button-lock"@ != "tap-button-map"@,
        "scroll-button-lock"@ != "left-handed"@,
        "scroll-button-lock"@ != "disabled-on-external-mouse"@,
        "scroll-button-lock"@ != "middle-emulation"@,
        "scroll-button-lock"@ != "scroll-factor"@,
        "scroll-button-lock"@ != "gestures"@,
{
    reveal_strlit("scroll-button-lock");
    assert("scroll-button-lock"@ =~= seq!['s', 'c', 'r', 'o', 'l', 'l', '-', 'b', 'u', 't', 't', 'o', 'n', '-', 'l', 'o', 'c', 'k']);
    reveal_strlit("tap-button-map");
    assert("tap-button-map"@ =~= seq!['t', 'a', 'p', '-', 'b', 'u', 't', 't', 'o', 'n', '-', 'm', 'a', 'p']);
    reveal_strlit("left-handed");
    assert("left-handed"@ =~= seq!['l', 'e', 'f', 't', '-', 'h', 'a', 'n', 'd', 'e', 'd']);
    reveal_strlit("disabled-on-external-mouse");
    assert("disabled-on-external-mouse"@ =~= seq!['d', 'i', 's', 'a', 'b', 'l', 'e', 'd', '-', 'o', 'n', '-', 'e', 'x', 't', 'e', 'r', 'n', 'a', 'l', '-', 'm', 'o', 'u', 's', 'e']);
    reveal_strlit("middle-emulation");
    assert("middle-emulation"@ =~= seq!['m', 'i', 'd', 'd', 'l', 'e', '-', 'e', 'm', 'u', 'l', 'a', 't', 'i', 'o', 'n']);
    reveal_strlit("scroll-factor");
    assert("scroll-factor"@ =~= seq!['s', 'c', 'r', 'o', 'l', 'l', '-', 'f', 'a', 'c', 't', 'o', 'r']);
    reveal_strlit("gestures");
    assert("gestures"@ =~= seq!['g', 'e', 's', 't', 'u', 'r', 'e', 's']);
}

proof fn lemma_distinct_tap_button_map()
    ensures
        "tap-button-map"@ != "left-handed"@,
        "tap-button-map"@ != "disabled-on-external-mouse"@,
        "tap-button-map"@ != "middle-emulation"@,
        "tap-button-map"@ != "scroll-factor"@,
        "tap-button-map"@ != "gestures"@,
{
    reveal_strlit("tap-button-map");
    assert("tap-button-map"@ =~= seq!['t', 'a', 'p', '-', 'b', 'u', 't', 't', 'o', 'n', '-', 'm', 'a', 'p']);
    reveal_strlit("left-handed");
    assert("left-handed"@ =~= seq!['l', 'e', 'f', 't', '-', 'h', 'a', 'n', 'd', 'e', 'd']);
    reveal_strlit("disabled-on-external-mouse");
    assert("disabled-on-external-mouse"@ =~= seq!['d', 'i', 's', 'a', 'b', 'l', 'e', 'd', '-', 'o', 'n', '-', 'e', 'x', 't', 'e', 'r', 'n', 'a', 'l', '-', 'm', 'o', 'u', 's', 'e']);
    reveal_strlit("middle-emulation");
    assert("middle-emulation"@ =~= seq!['m', 'i', 'd', 'd', 'l', 'e', '-', 'e', 'm', 'u', 'l', 'a', 't', 'i', 'o', 'n']);
    reveal_strlit("scroll-factor");
    assert("scroll-factor"@ =~= seq!['s', 'c', 'r', 'o', 'l', 'l', '-', 'f', 'a', 'c', 't', 'o', 'r']);
    reveal_strlit("gestures");
    assert("gestures"@ =~= seq!['g', 'e', 's', 't', 'u', 'r', 'e', 's']);
}

proof fn lemma_distinct_left_handed()
    ensures
        "left-handed"@ != "disabled-on-external-mouse"@,
        "left-handed"@ != "middle-emulation"@,
        "left-handed"@ != "scroll-factor"@,
        "left-handed"@ != "gestures"@,
{
    reveal_strlit("left-handed");
    assert("left-handed"@ =~= seq!['l', 'e', 'f', 't', '-', 'h', 'a', 'n', 'd', 'e', 'd']);
    reveal_strlit("disabled-on-external-mouse");
    assert("disabled-on-external-mouse"@ =~= seq!['d', 'i', 's', 'a', 'b', 'l', 'e', 'd', '-', 'o', 'n', '-', 'e', 'x', 't', 'e', 'r', 'n', 'a', 'l', '-', 'm', 'o', 'u', 's', 'e']);
    reveal_strlit("middle-emulation");
    assert("middle-emulation"@ =~= seq!['m', 'i', 'd', 'd', 'l', 'e', '-', 'e', 'm', 'u', 'l', 'a', 't', 'i', 'o', 'n']);
    reveal_strlit("scroll-factor");
    assert("scroll-factor"@ =~= seq!['s', 'c', 'r', 'o', 'l', 'l', '-', 'f', 'a', 'c', 't', 'o', 'r']);
    reveal_strlit("gestures");
    assert("gestures"@ =~= seq!['g', 'e', 's', 't', 'u', 'r', 'e', 's']);
}

proof fn lemma_distinct_disabled_on_external_mouse()
    ensures
        "disabled-on-external-mouse"@ != "middle-emulation"@,
        "disabled-on-external-mouse"@ != "scroll-factor"@,
        "disabled-on-external-mouse"@ != "gestures"@,
{
    reveal_strlit("disabled-on-external-mouse");
    assert("disabled-on-external-mouse"@ =~= seq!['d', 'i', 's', 'a', 'b', 'l', 'e', 'd', '-', 'o', 'n', '-', 'e', 'x', 't', 'e', 'r', 'n', 'a', 'l', '-', 'm', 'o', 'u', 's', 'e']);
    reveal_strlit("middle-emulation");
    assert("middle-emulation"@ =~= seq!['m', 'i', 'd', 'd', 'l', 'e', '-', 'e', 'm', 'u', 'l', 'a', 't', 'i', 'o', 'n']);
    reveal_strlit("scroll-factor");
    assert("scroll-factor"@ =~= seq!['s', 'c', 'r', 'o', 'l', 'l', '-', 'f', 'a', 'c', 't', 'o', 'r']);
    reveal_strlit("gestures");
    assert("gestures"@ =~= seq!['g', 'e', 's', 't', 'u', 'r', 'e', 's']);
}

proof fn lemma_distinct_middle_emulation()
    ensures
        "middle-emulation"@ != "scroll-factor"@,
        "middle-emulation"@ != "gestures"@,
{
    reveal_strlit("middle-emulation");
    assert("middle-emulation"@ =~= seq!['m', 'i', 'd', 'd', 'l', 'e', '-', 'e', 'm', 'u', 'l', 'a', 't', 'i', 'o', 'n']);
    reveal_strlit("scroll-factor");
    assert("scroll-factor"@ =~= seq!['s', 'c', 'r', 'o', 'l', 'l', '-', 'f', 'a', 'c', 't', 'o', 'r']);
    reveal_strlit("gestures");
    assert("gestures"@ =~= seq!['g', 'e', 's', 't', 'u', 'r', 'e', 's']);
}

proof fn lemma_distinct_scroll_factor()
    ensures
        "scroll-factor"@ != "gestures"@,
{
    reveal_strlit("scroll-factor");
    assert("scroll-factor"@ =~= seq!['s', 'c', 'r', 'o', 'l', 'l', '-', 'f', 'a', 'c', 't', 'o', 'r']);
    reveal_strlit("gestures");
    assert("gestures"@ =~= seq!['g', 'e', 's', 't', 'u', 'r', 'e', 's']);
}

/// The node names of a touchpad block are pairwise distinct.
proof fn lemma_touchpad_names_distinct()
    ensures
        "off"@ != "tap"@,
        "off"@ != "dwt"@,
        "off"@ != "dwtp"@,
        "off"@ != "drag"@,
        "off"@ != "drag-lock"@,
        "off"@ != "natural-scroll"@,
        "off"@ != "click-method"@,
        "off"@ != "accel-speed"@,
        "off"@ != "accel-profile"@,
        "off"@ != "scroll-method"@,
        "off"@ != "scroll-button"@,
        "off"@ != "scroll-button-lock"@,
        "off"@ != "tap-button-map"@,
        "off"@ != "left-handed"@,
        "off"@ != "disabled-on-external-mouse"@,
        "off"@ != "middle-emulation"@,
        "off"@ != "scroll-factor"@,
        "off"@ != "gestures"@,
        "tap"@ != "dwt"@,
        "tap"@ != "dwtp"@,
        "tap"@ != "drag"@,
        "tap"@ != "drag-lock"@,
        "tap"@ != "natural-scroll"@,
        "tap"@ != "click-method"@,
        "tap"@ != "accel-speed"@,
        "tap"@ != "accel-profile"@,
        "tap"@ != "scroll-method"@,
        "tap"@ != "scroll-button"@,
        "tap"@ != "scroll-button-lock"@,
        "tap"@ != "tap-button-map"@,
        "tap"@ != "left-handed"@,
        "tap"@ != "disabled-on-external-mouse"@,
        "tap"@ != "middle-emulation"@,
        "tap"@ != "scroll-factor"@,
        "tap"@ != "gestures"@,
        "dwt"@ != "dwtp"@,
        "dwt"@ != "drag"@,
        "dwt"@ != "drag-lock"@,
        "dwt"@ != "natural-scroll"@,
        "dwt"@ != "click-method"@,
        "dwt"@ != "accel-speed"@,
        "dwt"@ != "accel-profile"@,
        "dwt"@ != "scroll-method"@,
        "dwt"@ != "scroll-button"@,
        "dwt"@ != "scroll-button-lock"@,
        "dwt"@ != "tap-button-map"@,
        "dwt"@ != "left-handed"@,
        "dwt"@ != "disabled-on-external-mouse"@,
        "dwt"@ != "middle-emulation"@,
        "dwt"@ != "scroll-factor"@,
        "dwt"@ != "gestures"@,
        "dwtp"@ != "drag"@,
        "dwtp"@ != "drag-lock"@,
        "dwtp"@ != "natural-scroll"@,
        "dwtp"@ != "click-method"@,
        "dwtp"@ != "accel-speed"@,
        "dwtp"@ != "accel-profile"@,
        "dwtp"@ != "scroll-method"@,
        "dwtp"@ != "scroll-button"@,
        "dwtp"@ != "scroll-button-lock"@,
        "dwtp"@ != "tap-button-map"@,
        "dwtp"@ != "left-handed"@,
        "dwtp"@ != "disabled-on-external-mouse"@,
        "dwtp"@ != "middle-emulation"@,
        "dwtp"@ != "scroll-factor"@,
        "dwtp"@ != "gestures"@,
        "drag"@ != "drag-lock"@,
        "drag"@ != "natural-scroll"@,
        "drag"@ != "click-method"@,
        "drag"@ != "accel-speed"@,
        "drag"@ != "accel-profile"@,
        "drag"@ != "scroll-method"@,
        "drag"@ != "scroll-button"@,
        "drag"@ != "scroll-button-lock"@,
        "drag"@ != "tap-button-map"@,
        "drag"@ != "left-handed"@,
        "drag"@ != "disabled-on-external-mouse"@,
        "drag"@ != "middle-emulation"@,
        "drag"@ != "scroll-factor"@,
        "drag"@ != "gestures"@,
        "drag-lock"@ != "natural-scroll"@,
        "drag-lock"@ != "click-method"@,
        "drag-lock"@ != "accel-speed"@,
        "drag-lock"@ != "accel-profile"@,
        "drag-lock"@ != "scroll-method"@,
        "drag-lock"@ != "scroll-button"@,
        "drag-lock"@ != "scroll-button-lock"@,
        "drag-lock"@ != "tap-button-map"@,
        "drag-lock"@ != "left-handed"@,
        "drag-lock"@ != "disabled-on-external-mouse"@,
        "drag-lock"@ != "middle-emulation"@,
        "drag-lock"@ != "scroll-factor"@,
        "drag-lock"@ != "gestures"@,
        "natural-scroll"@ != "click-method"@,
        "natural-scroll"@ != "accel-speed"@,
        "natural-scroll"@ != "accel-profile"@,
        "natural-scroll"@ != "scroll-method"@,
        "natural-scroll"@ != "scroll-button"@,
        "natural-scroll"@ != "scroll-button-lock"@,
        "natural-scroll"@ != "tap-button-map"@,
        "natural-scroll"@ != "left-handed"@,
        "natural-scroll"@ != "disabled-on-external-mouse"@,
        "natural-scroll"@ != "middle-emulation"@,
        "natural-scroll"@ != "scroll-factor"@,
        "natural-scroll"@ != "gestures"@,
        "click-method"@ != "accel-speed"@,
        "click-method"@ != "accel-profile"@,
        "click-method"@ != "scroll-method"@,
        "click-method"@ != "scroll-button"@,
        "click-method"@ != "scroll-button-lock"@,
        "click-method"@ != "tap-button-map"@,
        "click-method"@ != "left-handed"@,
        "click-method"@ != "disabled-on-external-mouse"@,
        "click-method"@ != "middle-emulation"@,
        "click-method"@ != "scroll-factor"@,
        "click-method"@ != "gestures"@,
        "accel-speed"@ != "accel-profile"@,
        "accel-speed"@ != "scroll-method"@,
        "accel-speed"@ != "scroll-button"@,
        "accel-speed"@ != "scroll-button-lock"@,
        "accel-speed"@ != "tap-button-map"@,
        "accel-speed"@ != "left-handed"@,
        "accel-speed"@ != "disabled-on-external-mouse"@,
        "accel-speed"@ != "middle-emulation"@,
        "accel-speed"@ != "scroll-factor"@,
        "accel-speed"@ != "gestures"@,
        "accel-profile"@ != "scroll-method"@,
        "accel-profile"@ != "scroll-button"@,
        "accel-profile"@ != "scroll-button-lock"@,
        "accel-profile"@ != "tap-button-map"@,
        "accel-profile"@ != "left-handed"@,
        "accel-profile"@ != "disabled-on-external-mouse"@,
        "accel-profile"@ != "middle-emulation"@,
        "accel-profile"@ != "scroll-factor"@,
        "accel-profile"@ != "gestures"@,
        "scroll-method"@ != "scroll-button"@,
        "scroll-method"@ != "scroll-button-lock"@,
        "scroll-method"@ != "tap-button-map"@,
        "scroll-method"@ != "left-handed"@,
        "scroll-method"@ != "disabled-on-external-mouse"@,
        "scroll-method"@ != "middle-emulation"@,
        "scroll-method"@ != "scroll-factor"@,
        "scroll-method"@ != "gestures"@,
        "scroll-button"@ != "scroll-button-lock"@,
        "scroll-button"@ != "tap-button-map"@,
        "scroll-button"@ != "left-handed"@,
        "scroll-button"@ != "disabled-on-external-mouse"@,
        "scroll-button"@ != "middle-emulation"@,
        "scroll-button"@ != "scroll-factor"@,
        "scroll-button"@ != "gestures"@,
        "scroll-button-lock"@ != "tap-button-map"@,
        "scroll-button-lock"@ != "left-handed"@,
        "scroll-button-lock"@ != "disabled-on-external-mouse"@,
        "scroll-button-lock"@ != "middle-emulation"@,
        "scroll-button-lock"@ != "scroll-factor"@,
        "scroll-button-lock"@ != "gestures"@,
        "tap-button-map"@ != "left-handed"@,
        "tap-button-map"@ != "disabled-on-external-mouse"@,
        "tap-button-map"@ != "middle-emulation"@,
        "tap-button-map"@ != "scroll-factor"@,
        "tap-button-map"@ != "gestures"@,
        "left-handed"@ != "disabled-on-external-mouse"@,
        "left-handed"@ != "middle-emulation"@,
        "left-handed"@ != "scroll-factor"@,
        "left-handed"@ != "gestures"@,
        "disabled-on-external-mouse"@ != "middle-emulation"@,
        "disabled-on-external-mouse"@ != "scroll-factor"@,
        "disabled-on-external-mouse"@ != "gestures"@,
        "middle-emulation"@ != "scroll-factor"@,
        "middle-emulation"@ != "gestures"@,
        "scroll-factor"@ != "gestures"@,
{
    lemma_distinct_off();
    lemma_distinct_tap();
    lemma_distinct_dwt();
    lemma_distinct_dwtp();
    lemma_distinct_drag();
    lemma_distinct_drag_lock();
    lemma_distinct_natural_scroll();
    lemma_distinct_click_method();
    lemma_distinct_accel_speed();
    lemma_distinct_accel_profile();
    lemma_distinct_scroll_method();
    lemma_distinct_scroll_button();
    lemma_distinct_scroll_button_lock();
    lemma_distinct_tap_button_map();
    lemma_distinct_left_handed();
    lemma_distinct_disabled_on_external_mouse();
    lemma_distinct_middle_emulation();
    lemma_distinct_scroll_factor();
}

proof fn lemma_touchpad_off(s: TouchpadView)
    ensures
        has_node(touchpad_body(s), "off"@) == s.off,
{
    broadcast use lemma_find_concat, lemma_find_optional, lemma_find_single;
    lemma_touchpad_names_distinct();
}

proof fn lemma_touchpad_tap(s: TouchpadView)
    ensures
        has_node(touchpad_body(s), "tap"@) == s.tap,
{
    broadcast use lemma_find_concat, lemma_find_optional, lemma_find_single;
    lemma_touchpad_names_distinct();
}

proof fn lemma_touchpad_dwt(s: TouchpadView)
    ensures
        has_node(touchpad_body(s), "dwt"@) == s.dwt,
{
    broadcast use lemma_find_concat, lemma_find_optional, lemma_find_single;
    lemma_touchpad_names_distinct();
}

proof fn lemma_touchpad_dwtp(s: TouchpadView)
    ensures
        has_node(touchpad_body(s), "dwtp"@) == s.dwtp,
{
    broadcast use lemma_find_concat, lemma_find_optional, lemma_find_single;
    lemma_touchpad_names_distinct();
}

proof fn lemma_touchpad_drag_lock(s: TouchpadView)
    ensures
        has_node(touchpad_body(s), "drag-lock"@) == s.drag_lock,
{
    broadcast use lemma_find_concat, lemma_find_optional, lemma_find_single;
    lemma_touchpad_names_distinct();
}

proof fn lemma_touchpad_natural_scroll(s: TouchpadView)
    ensures
        has_node(touchpad_body(s), "natural-scroll"@) == s.natural_scroll,
{
    broadcast use lemma_find_concat, lemma_find_optional, lemma_find_single;
    lemma_touchpad_names_distinct();
}

proof fn lemma_touchpad_scroll_button_lock(s: TouchpadView)
    ensures
        has_node(touchpad_body(s), "scroll-button-lock"@) == s.scroll_button_lock,
{
    broadcast use lemma_find_concat, lemma_find_optional, lemma_find_single;
    lemma_touchpad_names_distinct();
}

proof fn lemma_touchpad_left_handed(s: TouchpadView)
    ensures
        has_node(touchpad_body(s), "left-handed"@) == s.left_handed,
{
    broadcast use lemma_find_concat, lemma_find_optional, lemma_find_single;
    lemma_touchpad_names_distinct();
}

proof fn lemma_touchpad_disabled_on_external_mouse(s: TouchpadView)
    ensures
        has_node(touchpad_body(s), "disabled-on-external-mouse"@) == s.disabled_on_external_mouse,
{
    broadcast use lemma_find_concat, lemma_find_optional, lemma_find_single;
    lemma_touchpad_names_distinct();
}

proof fn lemma_touchpad_middle_emulation(s: TouchpadView)
    ensures
        has_node(touchpad_body(s), "middle-emulation"@) == s.middle_emulation,
{
    broadcast use lemma_find_concat, lemma_find_optional, lemma_find_single;
    lemma_touchpad_names_distinct();
}

proof fn lemma_touchpad_click_method(s: TouchpadView)
    ensures
        spec_read_string_arg(touchpad_body(s), "click-method"@) == s.click_method,
{
    broadcast use lemma_find_concat, lemma_find_optional, lemma_find_single;
    lemma_touchpad_names_distinct();
}

proof fn lemma_touchpad_accel_profile(s: TouchpadView)
    ensures
        spec_read_string_arg(touchpad_body(s), "accel-profile"@) == s.accel_profile,
{
    broadcast use lemma_find_concat, lemma_find_optional, lemma_find_single;
    lemma_touchpad_names_distinct();
}

proof fn lemma_touchpad_scroll_method(s: TouchpadView)
    ensures
        spec_read_string_arg(touchpad_body(s), "scroll-method"@) == s.scroll_method,
{
    broadcast use lemma_find_concat, lemma_find_optional, lemma_find_single;
    lemma_touchpad_names_distinct();
}

proof fn lemma_touchpad_tap_button_map(s: TouchpadView)
    ensures
        spec_read_string_arg(touchpad_body(s), "tap-button-map"@) == s.tap_button_map,
{
    broadcast use lemma_find_concat, lemma_find_optional, lemma_find_single;
    lemma_touchpad_names_distinct();
}

proof fn lemma_touchpad_drag(s: TouchpadView)
    ensures
        spec_read_optional_bool(touchpad_body(s), "drag"@) == s.drag,
{
    broadcast use lemma_find_concat, lemma_find_optional, lemma_find_single;
    lemma_touchpad_names_distinct();
}

proof fn lemma_touchpad_accel_speed(s: TouchpadView)
    ensures
        spec_read_float_arg(touchpad_body(s), "accel-speed"@) == if crate::document::spec_is_zero(s.accel_speed) {
            None
        } else {
            Some(s.accel_speed)
        },
{
    broadcast use lemma_find_concat, lemma_find_optional, lemma_find_single;
    lemma_touchpad_names_distinct();
}

proof fn lemma_touchpad_scroll_button(s: TouchpadView)
    ensures
        spec_read_int_arg(touchpad_body(s), "scroll-button"@) == match s.scroll_button {
            Some(b) => Some(b as i128),
            None => None,
        },
{
    broadcast use lemma_find_concat, lemma_find_optional, lemma_find_single;
    lemma_touchpad_names_distinct();
}

proof fn lemma_touchpad_scroll_factor(s: TouchpadView)
    ensures
        spec_read_float_arg(touchpad_body(s), "scroll-factor"@) == s.scroll_factor,
{
    broadcast use lemma_find_concat, lemma_find_optional, lemma_find_single;
    lemma_touchpad_names_distinct();
}

proof fn lemma_touchpad_gestures(s: TouchpadView)
    ensures
        crate::settings::child_block(touchpad_body(s), "gestures"@) == Some(
            seq![
                crate::document::float_node("swipe-trigger-distance"@, s.swipe_trigger_distance),
                crate::document::float_node("swipe-progress-distance"@, s.swipe_progress_distance),
            ],
        ),
{
    broadcast use lemma_find_concat, lemma_find_optional, lemma_find_single;
    lemma_touchpad_names_distinct();
}

proof fn lemma_input_not_binds()
    ensures
        "input"@ != "binds"@,
{
    reveal_strlit("input");
    reveal_strlit("binds");
    assert("input"@.len() == 5 && "binds"@.len() == 5);
    assert("input"@[0] == 'i' && "binds"@[0] == 'b');
}

proof fn lemma_device_block(device: Seq<char>, body: Seq<NodeView>, rest: Seq<NodeView>)
    ensures
        crate::settings::device_block(seq![input_block(device, body)] + rest, device) == Some(body),
{
    broadcast use lemma_find_concat, lemma_find_single;
}

proof fn lemma_touchpad_gesture_values(s: TouchpadView)
    ensures
        ({
            let g = seq![
                crate::document::float_node("swipe-trigger-distance"@, s.swipe_trigger_distance),
                crate::document::float_node("swipe-progress-distance"@, s.swipe_progress_distance),
            ];
            &&& spec_read_float_arg(g, "swipe-trigger-distance"@) == Some(s.swipe_trigger_distance)
            &&& spec_read_float_arg(g, "swipe-progress-distance"@) == Some(s.swipe_progress_distance)
        }),
{
    lemma_node_names();
    reveal_with_fuel(find_node, 3);
}

/// Writing touchpad settings and reading the file back gives the same
/// settings, with the binds that survive being written. A zero
/// acceleration is not written and reads back as positive zero, so the law
/// holds for settings whose zero acceleration is positive zero.
pub proof fn law_touchpad_roundtrip(s: TouchpadView)
    requires
        crate::document::spec_is_zero(s.accel_speed) ==> s.accel_speed == Real::Bits(0),
    ensures
        spec_parse_touchpad(spec_touchpad_document(s), spec_touchpad_document(s)) == (TouchpadView {
            binds: kept_binds(s.binds),
            ..s
        }),
{
    let body = touchpad_body(s);
    let inp = input_block("touchpad"@, body);
    lemma_device_block("touchpad"@, body, binds_block(s.binds));
    lemma_input_not_binds();
    lemma_document_binds(inp, s.binds);
    lemma_touchpad_off(s);
    lemma_touchpad_tap(s);
    lemma_touchpad_dwt(s);
    lemma_touchpad_dwtp(s);
    lemma_touchpad_drag_lock(s);
    lemma_touchpad_natural_scroll(s);
    lemma_touchpad_scroll_button_lock(s);
    lemma_touchpad_left_handed(s);
    lemma_touchpad_disabled_on_external_mouse(s);
    lemma_touchpad_middle_emulation(s);
    lemma_touchpad_click_method(s);
    lemma_touchpad_accel_profile(s);
    lemma_touchpad_scroll_method(s);
    lemma_touchpad_tap_button_map(s);
    lemma_touchpad_drag(s);
    lemma_touchpad_accel_speed(s);
    lemma_touchpad_scroll_button(s);
    lemma_touchpad_scroll_factor(s);
    lemma_touchpad_gestures(s);
    lemma_touchpad_gesture_values(s);
    match s.scroll_button {
        Some(b) => {
            assert((b as i128) as u32 == b) by (bit_vector);
        },
        None => {},
    }
}


/// Once the include block has been appended, the main config includes both
/// gesture files, so a second update changes nothing.
pub proof fn law_includes_settle(content: Seq<char>)
    ensures
        includes_touchscreen(spec_with_includes(content)),
        includes_touchpad(spec_with_includes(content)),
{
    let s = spec_with_includes(content);
    let block = INCLUDE_BLOCK@;
    reveal_strlit("// Includes override existing sections.\n// Settings in these files replace the corresponding blocks in this config.\n// Gesture binds in these files merge into the main binds {} block.\ninclude \"touchscreen-gestures.kdl\" optional=true\ninclude \"touchpad-gestures.kdl\" optional=true\n");
    reveal_strlit("touchscreen-gestures.kdl");
    reveal_strlit("touchpad-gestures.kdl");
    reveal_strlit("\n");
    reveal_strlit("\n\n");
    assert(block.len() == 279);
    let k: int = s.len() - 279;
    assert(s.subrange(k, s.len() as int) =~= block);
    let ts = "touchscreen-gestures.kdl"@;
    let tp = "touchpad-gestures.kdl"@;
    assert(s.subrange(k + 193, k + 217) =~= block.subrange(193, 217));
    assert(block.subrange(193, 217) =~= ts);
    assert(s.subrange(k + 242, k + 263) =~= block.subrange(242, 263));
    assert(block.subrange(242, 263) =~= tp);
    let i: int = k + 193;
    let j: int = k + 242;
    assert(s.subrange(i, i + ts.len()) == ts);
    assert(s.subrange(j, j + tp.len()) == tp);
}

// ---------------------------------------------------------------------------
// The bind list
// ---------------------------------------------------------------------------

/// Picking, in a bind row's menus, the entry that shows the trigger's
/// current finger count, direction, edge or zone gives the trigger back
/// unchanged (a rejected edit is undone this way).
pub proof fn law_current_menu_entry_keeps_trigger(t: Trigger)
    ensures
        trigger_fingers(t) matches Some(f) ==> spec_edited(t, TriggerEdit::Fingers(f)) == t,
        spec_direction_index(t) matches Some(i) ==> spec_edited(t, TriggerEdit::Direction(i)) == t,
        t matches Trigger::TouchEdge { edge, zone } ==> spec_edited(
            t,
            TriggerEdit::Edge(edge_index(edge)),
        ) == t && spec_edited(
            t,
            TriggerEdit::Zone(
                match zone {
                    None => 0,
                    Some(z) => (zone_index(z) + 1) as usize,
                },
            ),
        ) == t,
{
}

/// An in-place trigger edit that goes through keeps the trigger keys of the
/// bind list distinct.
pub proof fn law_update_keeps_keys_unique(bs: Seq<BindView>, i: int, t: Trigger)
    requires
        keys_unique(bs),
        0 <= i < bs.len(),
        !other_with_key(bs, i, spec_key(t)),
    ensures
        keys_unique(bs.update(i, BindView { trigger: t, ..bs[i] })),
{
    let nb = bs.update(i, BindView { trigger: t, ..bs[i] });
    assert forall|a: int, b: int|
        0 <= a < nb.len() && 0 <= b < nb.len() && a != b implies spec_key(nb[a].trigger) != spec_key(
            nb[b].trigger,
        ) by {
        if a == i {
            if spec_key(bs[b].trigger) == spec_key(t) {
                assert(other_with_key(bs, i, spec_key(t)));
            }
        } else if b == i {
            if spec_key(bs[a].trigger) == spec_key(t) {
                assert(other_with_key(bs, i, spec_key(t)));
            }
        }
    }
}

/// Adding a bind whose key no bind has keeps the trigger keys distinct.
pub proof fn law_add_keeps_keys_unique(bs: Seq<BindView>, b: BindView)
    requires
        keys_unique(bs),
        none_with_key(bs, spec_key(b.trigger)),
    ensures
        keys_unique(bs.push(b)),
{
    let nb = bs.push(b);
    assert forall|x: int, y: int|
        0 <= x < nb.len() && 0 <= y < nb.len() && x != y implies spec_key(nb[x].trigger) != spec_key(
            nb[y].trigger,
        ) by {
        if x == bs.len() {
            assert(spec_key(bs[y].trigger) != spec_key(b.trigger));
        } else if y == bs.len() {
            assert(spec_key(bs[x].trigger) != spec_key(b.trigger));
        }
    }
}

/// After deleting the binds with a key, no bind has that key; every bind
/// that is left was in the list before, and deleting a key that no bind
/// has changes nothing.
pub proof fn law_remove_clears_key(bs: Seq<BindView>, key: Seq<char>)
    ensures
        none_with_key(without_key(bs, key), key),
        forall|j: int| 0 <= j < without_key(bs, key).len() ==> bs.contains(#[trigger] without_key(bs, key)[j]),
        none_with_key(bs, key) ==> without_key(bs, key) == bs,
    decreases bs.len(),
{
    if bs.len() > 0 {
        let prev = bs.drop_last();
        law_remove_clears_key(prev, key);
        let w = without_key(bs, key);
        let pw = without_key(prev, key);
        assert forall|j: int| 0 <= j < w.len() implies bs.contains(#[trigger] w[j]) by {
            if j < pw.len() {
                assert(prev.contains(pw[j]));
                let k = choose|k: int| 0 <= k < prev.len() && prev[k] == pw[j];
                assert(bs[k] == pw[j]);
            } else {
                assert(w[j] == bs.last());
                assert(bs[bs.len() - 1] == w[j]);
            }
        }
        if none_with_key(bs, key) {
            assert forall|j: int| 0 <= j < prev.len() implies spec_key(#[trigger] prev[j].trigger) != key by {
                assert(prev[j] == bs[j]);
            }
            assert(spec_key(bs[bs.len() - 1].trigger) != key);
            assert(bs =~= prev.push(bs.last()));
        }
    }
}

// ---------------------------------------------------------------------------
// KDL v1 <-> v2 booleans
// ---------------------------------------------------------------------------

proof fn lemma_no_bool_skip(s: Seq<char>, k: int)
    requires
        0 <= k <= s.len(),
    ensures
        no_v1_bool(s) ==> no_v1_bool(s.skip(k)),
        no_v2_bool(s) ==> no_v2_bool(s.skip(k)),
{
    let t = s.skip(k);
    if no_v1_bool(s) {
        assert forall|i: int| !#[trigger] v1_bool_at(t, i) by {
            if 0 <= i < t.len() {
                assert(t[i] == s[i + k]);
                assert(t.skip(i + 1) =~= s.skip(i + k + 1));
                assert(!v1_bool_at(s, i + k));
            }
        }
    }
    if no_v2_bool(s) {
        assert forall|i: int| !#[trigger] v2_bool_at(t, i) by {
            if 0 <= i && i + 1 < t.len() {
                assert(t[i] == s[i + k]);
                assert(t[i + 1] == s[i + k + 1]);
                assert(t.skip(i + 2) =~= s.skip(i + k + 2));
                assert(!v2_bool_at(s, i + k));
            }
        }
    }
}

/// Rewriting KDL v1 boolean property values to v2 and back gives the text
/// back, for any text holding neither `=#true` nor `=#false`; the v2 form
/// holds neither `=true` nor `=false`.
pub proof fn law_v1_v2_roundtrip(s: Seq<char>)
    requires
        no_v2_bool(s),
    ensures
        spec_v2_to_v1(spec_v1_to_v2(s)) == s,
        no_v1_bool(spec_v1_to_v2(s)),
    decreases s.len(),
{
    crate::text::lemma_v1_to_v2_leaves_no_v1_bool(s);
    if s.len() > 0 {
        let w = s.skip(1);
        lemma_no_bool_skip(s, 1);
        law_v1_v2_roundtrip(w);
        let x = spec_v1_to_v2(w);
        if before_value(s[0]) && starts_bool(w) {
            let o = seq![s[0], '#'] + x;
            assert(spec_v1_to_v2(s) == o);
            assert(o.skip(2) =~= x);
            lemma_starts_bool_kept(w);
            assert(spec_v2_to_v1(o) == seq![s[0]] + spec_v2_to_v1(x));
            assert(s =~= seq![s[0]] + w);
        } else {
            let o = seq![s[0]] + x;
            assert(spec_v1_to_v2(s) == o);
            assert(o.skip(1) =~= x);
            if o.len() >= 2 && before_value(s[0]) && o[1] == '#' {
                assert(w[0] == '#');
                let z = w.skip(1);
                assert(z =~= s.skip(2));
                assert(x == seq![w[0]] + spec_v1_to_v2(z));
                assert(o.skip(2) =~= spec_v1_to_v2(z));
                lemma_starts_bool_kept(z);
                assert(!v2_bool_at(s, 0));
            }
            assert(spec_v2_to_v1(o) == seq![s[0]] + spec_v2_to_v1(x));
            assert(s =~= seq![s[0]] + w);
        }
    }
}

/// Rewriting KDL v2 boolean property values to v1 and back gives the text
/// back, for any text holding neither `=true` nor `=false`; the v1 form
/// holds neither `=#true` nor `=#false`.
pub proof fn law_v2_v1_roundtrip(s: Seq<char>)
    requires
        no_v1_bool(s),
    ensures
        spec_v1_to_v2(spec_v2_to_v1(s)) == s,
        no_v2_bool(spec_v2_to_v1(s)),
    decreases s.len(),
{
    crate::text::lemma_v2_to_v1_leaves_no_v2_bool(s);
    if s.len() > 0 {
        if s.len() >= 2 && before_value(s[0]) && s[1] == '#' && starts_bool(s.skip(2)) {
            let w = s.skip(2);
            lemma_no_bool_skip(s, 2);
            law_v2_v1_roundtrip(w);
            let y = spec_v2_to_v1(w);
            let o = seq![s[0]] + y;
            assert(spec_v2_to_v1(s) == o);
            assert(o.skip(1) =~= y);
            lemma_starts_bool_kept(w);
            assert(spec_v1_to_v2(o) == seq![s[0], '#'] + spec_v1_to_v2(y));
            assert(s =~= seq![s[0], '#'] + w);
        } else {
            let w = s.skip(1);
            lemma_no_bool_skip(s, 1);
            law_v2_v1_roundtrip(w);
            let y = spec_v2_to_v1(w);
            let o = seq![s[0]] + y;
            assert(spec_v2_to_v1(s) == o);
            assert(o.skip(1) =~= y);
            lemma_starts_bool_kept(w);
            assert(!v1_bool_at(s, 0));
            assert(spec_v1_to_v2(o) == seq![s[0]] + spec_v1_to_v2(y));
            assert(s =~= seq![s[0]] + w);
        }
    }
}

// ---------------------------------------------------------------------------
// Each tuning value: the file's, or its own default
// ---------------------------------------------------------------------------

/// The number a device's `gestures {}` block gives under `name`, if the
/// document has such a block and node.
pub open spec fn gesture_value(doc: Seq<NodeView>, device: Seq<char>, name: Seq<char>) -> Option<Real> {
    match device_block(doc, device) {
        Some(dev) => match child_block(dev, "gestures"@) {
            Some(g) => spec_read_float_arg(g, name),
            None => None,
        },
        None => None,
    }
}

/// `value` when given, else `default`.
pub open spec fn tuning_or(value: Option<Real>, default: Real) -> Real {
    match value {
        Some(v) => v,
        None => default,
    }
}

/// Reading touchscreen settings takes each tuning value from the node of
/// the same name in the touchscreen `gestures {}` block; a value the file
/// leaves out keeps its own default.
pub proof fn law_touchscreen_tuning_from_file_or_default(doc: Seq<NodeView>)
    ensures
        spec_parse_touchscreen(doc).swipe_trigger_distance == tuning_or(
            gesture_value(doc, "touchscreen"@, "swipe-trigger-distance"@),
            touchscreen_defaults().swipe_trigger_distance,
        ),
        spec_parse_touchscreen(doc).edge_start_distance == tuning_or(
            gesture_value(doc, "touchscreen"@, "edge-start-distance"@),
            touchscreen_defaults().edge_start_distance,
        ),
        spec_parse_touchscreen(doc).pinch_trigger_distance == tuning_or(
            gesture_value(doc, "touchscreen"@, "pinch-trigger-distance"@),
            touchscreen_defaults().pinch_trigger_distance,
        ),
        spec_parse_touchscreen(doc).pinch_dominance_ratio == tuning_or(
            gesture_value(doc, "touchscreen"@, "pinch-dominance-ratio"@),
            touchscreen_defaults().pinch_dominance_ratio,
        ),
        spec_parse_touchscreen(doc).pinch_sensitivity == tuning_or(
            gesture_value(doc, "touchscreen"@, "pinch-sensitivity"@),
            touchscreen_defaults().pinch_sensitivity,
        ),
        spec_parse_touchscreen(doc).swipe_multi_finger_scale == tuning_or(
            gesture_value(doc, "touchscreen"@, "swipe-multi-finger-scale"@),
            touchscreen_defaults().swipe_multi_finger_scale,
        ),
        spec_parse_touchscreen(doc).rotation_trigger_angle == tuning_or(
            gesture_value(doc, "touchscreen"@, "rotation-trigger-angle"@),
            touchscreen_defaults().rotation_trigger_angle,
        ),
        spec_parse_touchscreen(doc).rotation_dominance_ratio == tuning_or(
            gesture_value(doc, "touchscreen"@, "rotation-dominance-ratio"@),
            touchscreen_defaults().rotation_dominance_ratio,
        ),
        spec_parse_touchscreen(doc).rotation_progress_angle == tuning_or(
            gesture_value(doc, "touchscreen"@, "rotation-progress-angle"@),
            touchscreen_defaults().rotation_progress_angle,
        ),
        spec_parse_touchscreen(doc).tap_wobble_threshold == tuning_or(
            gesture_value(doc, "touchscreen"@, "tap-wobble-threshold"@),
            touchscreen_defaults().tap_wobble_threshold,
        ),
        spec_parse_touchscreen(doc).tap_timeout_ms == tuning_or(
            gesture_value(doc, "touchscreen"@, "tap-timeout-ms"@),
            touchscreen_defaults().tap_timeout_ms,
        ),
        spec_parse_touchscreen(doc).tap_hold_trigger_delay_ms == tuning_or(
            gesture_value(doc, "touchscreen"@, "tap-hold-trigger-delay-ms"@),
            touchscreen_defaults().tap_hold_trigger_delay_ms,
        ),
        spec_parse_touchscreen(doc).swipe_progress_distance == tuning_or(
            gesture_value(doc, "touchscreen"@, "swipe-progress-distance"@),
            touchscreen_defaults().swipe_progress_distance,
        ),
{
}

/// Reading touchpad settings takes each gesture value from the node of the
/// same name in the touchpad `gestures {}` block; a value the file leaves
/// out keeps its own default.
pub proof fn law_touchpad_tuning_from_file_or_default(doc: Seq<NodeView>, binds_doc: Seq<NodeView>)
    ensures
        spec_parse_touchpad(doc, binds_doc).swipe_trigger_distance == tuning_or(
            gesture_value(doc, "touchpad"@, "swipe-trigger-distance"@),
            touchpad_defaults().swipe_trigger_distance,
        ),
        spec_parse_touchpad(doc, binds_doc).swipe_progress_distance == tuning_or(
            gesture_value(doc, "touchpad"@, "swipe-progress-distance"@),
            touchpad_defaults().swipe_progress_distance,
        ),
{
}

// ---------------------------------------------------------------------------
// What a bind node's options read as
// ---------------------------------------------------------------------------

/// A bind read from a node has natural scroll exactly when the node's
/// (last) `natural-scroll` property is the boolean `true`: `false`, another
/// value or no such property read as off. Its tag is the `tag` property
/// when that is a string.
pub proof fn law_read_bind_options(n: NodeView)
    ensures
        spec_read_bind(n) matches Some(b) ==> b.natural_scroll == (prop_value(
            n.entries,
            "natural-scroll"@,
        ) == Some(ValueView::Bool(true))),
        spec_read_bind(n) matches Some(b) ==> b.sensitivity == match prop_value(
            n.entries,
            "sensitivity"@,
        ) {
            Some(ValueView::Float(r)) => Some(r),
            Some(ValueView::Integer(i)) => Some(Real::Int(i)),
            _ => None,
        },
        spec_read_bind(n) matches Some(b) ==> b.enabled,
        spec_read_bind(n) matches Some(b) ==> b.tag == match prop_value(n.entries, "tag"@) {
            Some(ValueView::String(t)) => Some(t),
            _ => None,
        },
{
}

// ---------------------------------------------------------------------------
// Edits change only what they edit
// ---------------------------------------------------------------------------

/// The entry of a direction menu that index `i` picks: menus count round,
/// and the tap-hold-drag menu starts with "Any".
pub open spec fn picked_direction(t: Trigger, i: int) -> Option<usize> {
    match t {
        Trigger::TouchSwipe { .. } => Some((i % 4) as usize),
        Trigger::TouchpadSwipe { .. } => Some((i % 4) as usize),
        Trigger::TouchPinch { .. } => Some((i % 2) as usize),
        Trigger::TouchRotate { .. } => Some((i % 2) as usize),
        Trigger::TouchTapHoldDrag { .. } => if i == 0 {
            Some(0)
        } else {
            Some((1 + (i - 1) % 4) as usize)
        },
        _ => None,
    }
}

/// A finger-count edit gives the trigger the new count and keeps its family
/// and its direction; a trigger without a finger count is left as it is.
pub proof fn law_fingers_edit(t: Trigger, f: u8)
    ensures
        trigger_fingers(t) is Some ==> trigger_fingers(spec_edited(t, TriggerEdit::Fingers(f))) == Some(
            f,
        ),
        spec_kdl_family(spec_edited(t, TriggerEdit::Fingers(f))) == spec_kdl_family(t),
        spec_direction_index(spec_edited(t, TriggerEdit::Fingers(f))) == spec_direction_index(t),
        trigger_fingers(t) is None ==> spec_edited(t, TriggerEdit::Fingers(f)) == t,
{
}

/// A direction edit gives the trigger the picked menu entry and keeps its
/// family and finger count; a trigger without a direction menu is left as
/// it is.
pub proof fn law_direction_edit(t: Trigger, i: usize)
    ensures
        spec_direction_index(spec_edited(t, TriggerEdit::Direction(i))) == picked_direction(t, i as int),
        spec_kdl_family(spec_edited(t, TriggerEdit::Direction(i))) == spec_kdl_family(t),
        trigger_fingers(spec_edited(t, TriggerEdit::Direction(i))) == trigger_fingers(t),
        spec_direction_index(t) is None ==> spec_edited(t, TriggerEdit::Direction(i)) == t,
{
}

/// An edge edit picks edge `i` (counting round the four) and keeps the
/// zone; a zone edit keeps the edge and picks "Full" for entry 0, else zone
/// `i - 1` (counting round the three). Other triggers are left as they are.
pub proof fn law_edge_zone_edit(t: Trigger, i: usize)
    ensures
        t matches Trigger::TouchEdge { zone, .. } ==> (spec_edited(t, TriggerEdit::Edge(i)) matches Trigger::TouchEdge {
            edge: e2,
            zone: z2,
        } && edge_index(e2) == i % 4 && z2 == zone),
        t matches Trigger::TouchEdge { edge, .. } ==> (spec_edited(t, TriggerEdit::Zone(i)) matches Trigger::TouchEdge {
            edge: e2,
            zone: z2,
        } && e2 == edge && (if i == 0 {
            z2 is None
        } else {
            z2 matches Some(z) && zone_index(z) == (i - 1) % 3
        })),
        !(t is TouchEdge) ==> spec_edited(t, TriggerEdit::Edge(i)) == t && spec_edited(
            t,
            TriggerEdit::Zone(i),
        ) == t,
{
}

// ---------------------------------------------------------------------------
// The add-bind forms give the picked trigger
// ---------------------------------------------------------------------------

/// The touchscreen form's trigger has the picked family, the picked finger
/// count (where the family has one) and the picked menu entries: the
/// direction menus count round and the tap-hold-drag menu starts with
/// "Any"; the edge menu counts round; zone entry 0 is "Full", entry `k`
/// zone `k - 1` counting round.
pub proof fn law_form_trigger_picks(family: Family, fingers: u8, dir: u32, edge: u32, zone: u32)
    ensures
        ({
            let t = spec_form_trigger(family, fingers, dir, edge, zone);
            &&& family == Family::Swipe ==> t is TouchSwipe
            &&& family == Family::Pinch ==> t is TouchPinch
            &&& family == Family::Rotate ==> t is TouchRotate
            &&& family == Family::Edge ==> t is TouchEdge
            &&& family == Family::Tap ==> t is TouchTap
            &&& family == Family::TapHoldDrag ==> t is TouchTapHoldDrag
            &&& family != Family::Edge ==> trigger_fingers(t) == Some(fingers)
            &&& spec_direction_index(t) == picked_direction(t, dir as int)
            &&& t matches Trigger::TouchEdge { edge: e, zone: z } ==> edge_index(e) == edge % 4 && (if zone
                == 0 {
                z is None
            } else {
                z matches Some(zz) && zone_index(zz) == (zone - 1) % 3
            })
        }),
{
}

/// The touchpad form's trigger is a swipe with the picked direction, for
/// each of the four directions.
pub proof fn law_touchpad_form_picks(fingers: u8, dir: u32)
    ensures
        dir < 4 ==> (spec_touchpad_form_trigger(fingers, dir) matches Some(t) && t is TouchpadSwipe
            && spec_direction_index(t) == Some(dir as usize)),
        dir >= 4 ==> spec_touchpad_form_trigger(fingers, dir) is None,
{
}

// ---------------------------------------------------------------------------
// Display names spell the KDL keywords
// ---------------------------------------------------------------------------

/// The ASCII uppercase of `c`.
pub open spec fn ascii_upper(c: char) -> char {
    if 'a' <= c <= 'z' {
        ((c as u32) - 32) as char
    } else {
        c
    }
}

/// `s` with its first character in ASCII uppercase.
pub open spec fn capitalized(s: Seq<char>) -> Seq<char> {
    if s.len() == 0 {
        s
    } else {
        seq![ascii_upper(s[0])] + s.skip(1)
    }
}

proof fn lemma_capitalized_words()
    ensures
        capitalized("top"@) == "Top"@,
        capitalized("bottom"@) == "Bottom"@,
        capitalized("left"@) == "Left"@,
        capitalized("right"@) == "Right"@,
        capitalized("center"@) == "Center"@,
        capitalized("up"@) == "Up"@,
        capitalized("down"@) == "Down"@,
        capitalized("in"@) == "In"@,
        capitalized("out"@) == "Out"@,
{
    reveal_strlit("top");
    reveal_strlit("Top");
    assert(capitalized("top"@) =~= "Top"@);
    reveal_strlit("bottom");
    reveal_strlit("Bottom");
    assert(capitalized("bottom"@) =~= "Bottom"@);
    reveal_strlit("left");
    reveal_strlit("Left");
    assert(capitalized("left"@) =~= "Left"@);
    reveal_strlit("right");
    reveal_strlit("Right");
    assert(capitalized("right"@) =~= "Right"@);
    reveal_strlit("center");
    reveal_strlit("Center");
    assert(capitalized("center"@) =~= "Center"@);
    reveal_strlit("up");
    reveal_strlit("Up");
    assert(capitalized("up"@) =~= "Up"@);
    reveal_strlit("down");
    reveal_strlit("Down");
    assert(capitalized("down"@) =~= "Down"@);
    reveal_strlit("in");
    reveal_strlit("In");
    assert(capitalized("in"@) =~= "In"@);
    reveal_strlit("out");
    reveal_strlit("Out");
    assert(capitalized("out"@) =~= "Out"@);
}

/// An edge trigger's display name shows the edge and its zone by their KDL
/// keywords, capitalized: the zone as that edge names it (a left or right
/// edge has top/center/bottom zones, a top or bottom edge left/center/right).
/// Swipe and pinch directions show the same way.
pub proof fn law_display_names_spell_keywords(t: Trigger)
    ensures
        t matches Trigger::TouchEdge { edge, zone: Some(z) } ==> spec_display_name(t) == "Edge "@
            + capitalized(edge_kdl(edge)) + " \u{2014} "@ + capitalized(zone_kdl(z, edge)),
        t matches Trigger::TouchEdge { edge, zone: None } ==> spec_display_name(t) == "Edge "@
            + capitalized(edge_kdl(edge)) + " (full)"@,
        t matches Trigger::TouchSwipe { fingers, direction } ==> spec_display_name(t) == decimal(
            fingers as nat,
        ) + "-Finger Swipe "@ + capitalized(swipe_kdl(direction)),
        t matches Trigger::TouchpadSwipe { fingers, direction } ==> spec_display_name(t) == decimal(
            fingers as nat,
        ) + "-Finger Swipe "@ + capitalized(swipe_kdl(direction)),
        t matches Trigger::TouchTapHoldDrag { fingers, direction: Some(d) } ==> spec_display_name(t)
            == decimal(fingers as nat) + "-Finger Tap-Hold-Drag "@ + capitalized(swipe_kdl(d)),
        t matches Trigger::TouchPinch { fingers, direction } ==> spec_display_name(t) == decimal(
            fingers as nat,
        ) + "-Finger Pinch "@ + capitalized(pinch_kdl(direction)),
{
    lemma_capitalized_words();
}

// ---------------------------------------------------------------------------
// Device switches
// ---------------------------------------------------------------------------

/// The document's `input { <device> { ... } }` block has a node `name`.
pub open spec fn device_has(doc: Seq<NodeView>, device: Seq<char>, name: Seq<char>) -> bool {
    match device_block(doc, device) {
        Some(d) => has_node(d, name),
        None => false,
    }
}

/// Each touchscreen switch is on exactly when the touchscreen block holds
/// the node of that name; the output is the string the `map-to-output` node
/// gives.
pub proof fn law_touchscreen_switches(doc: Seq<NodeView>)
    ensures
        spec_parse_touchscreen(doc).off == device_has(doc, "touchscreen"@, "off"@),
        spec_parse_touchscreen(doc).natural_scroll == device_has(doc, "touchscreen"@, "natural-scroll"@),
        spec_parse_touchscreen(doc).map_to_output == match device_block(doc, "touchscreen"@) {
            Some(d) => spec_read_string_arg(d, "map-to-output"@),
            None => None,
        },
{
}

/// Each touchpad switch is on exactly when the touchpad block holds the
/// node of that name.
pub proof fn law_touchpad_switches(doc: Seq<NodeView>, binds_doc: Seq<NodeView>)
    ensures
        spec_parse_touchpad(doc, binds_doc).off == device_has(doc, "touchpad"@, "off"@),
        spec_parse_touchpad(doc, binds_doc).tap == device_has(doc, "touchpad"@, "tap"@),
        spec_parse_touchpad(doc, binds_doc).dwt == device_has(doc, "touchpad"@, "dwt"@),
        spec_parse_touchpad(doc, binds_doc).dwtp == device_has(doc, "touchpad"@, "dwtp"@),
        spec_parse_touchpad(doc, binds_doc).drag_lock == device_has(doc, "touchpad"@, "drag-lock"@),
        spec_parse_touchpad(doc, binds_doc).natural_scroll == device_has(doc, "touchpad"@, "natural-scroll"@),
        spec_parse_touchpad(doc, binds_doc).scroll_button_lock == device_has(doc, "touchpad"@, "scroll-button-lock"@),
        spec_parse_touchpad(doc, binds_doc).left_handed == device_has(doc, "touchpad"@, "left-handed"@),
        spec_parse_touchpad(doc, binds_doc).disabled_on_external_mouse == device_has(doc, "touchpad"@, "disabled-on-external-mouse"@),
        spec_parse_touchpad(doc, binds_doc).middle_emulation == device_has(doc, "touchpad"@, "middle-emulation"@),
{
}

} // verus!
