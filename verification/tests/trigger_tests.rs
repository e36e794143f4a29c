use niri_touch_settings::document::{Entry, Node, Style, Value};
use niri_touch_settings::trigger::{
    push_int_prop, push_string_prop, Edge, EdgeZone, PinchDir, RotateDir, SwipeDir, Trigger,
    MAX_FINGERS, MIN_FINGERS,
};

fn bind_node(label: &str) -> Node {
    let mut n = Node::new(label);
    n.label = label.to_string();
    n
}

fn with_int(mut n: Node, key: &str, v: i128) -> Node {
    push_int_prop(&mut n, key, v);
    n
}

fn with_str(mut n: Node, key: &str, v: &str) -> Node {
    push_string_prop(&mut n, key, v);
    n
}

#[test]
fn swipe_dir_keywords() {
    assert_eq!(SwipeDir::Up.as_kdl(), "up");
    assert_eq!(SwipeDir::Down.as_kdl(), "down");
    assert_eq!(SwipeDir::Left.as_kdl(), "left");
    assert_eq!(SwipeDir::Right.as_kdl(), "right");
    assert_eq!(SwipeDir::Right.display(), "Right");
    assert_eq!(SwipeDir::parse("down"), Some(SwipeDir::Down));
    assert_eq!(SwipeDir::parse("Down"), None);
    assert_eq!(SwipeDir::parse(""), None);
    for d in SwipeDir::ALL {
        assert_eq!(SwipeDir::parse(d.as_kdl()), Some(d));
        assert_eq!(SwipeDir::from_index(d.index()), d);
    }
}

#[test]
fn pinch_and_rotate_keywords() {
    assert_eq!(PinchDir::In.as_kdl(), "in");
    assert_eq!(PinchDir::Out.display(), "Out");
    assert_eq!(PinchDir::parse("out"), Some(PinchDir::Out));
    assert_eq!(PinchDir::parse("up"), None);
    assert_eq!(RotateDir::Cw.as_kdl(), "cw");
    assert_eq!(RotateDir::Ccw.as_kdl(), "ccw");
    assert_eq!(RotateDir::Cw.display(), "Clockwise");
    assert_eq!(RotateDir::Ccw.display(), "Counter-Clockwise");
    assert_eq!(RotateDir::parse("ccw"), Some(RotateDir::Ccw));
    assert_eq!(RotateDir::parse("clockwise"), None);
    for d in PinchDir::ALL {
        assert_eq!(PinchDir::parse(d.as_kdl()), Some(d));
    }
    for d in RotateDir::ALL {
        assert_eq!(RotateDir::parse(d.as_kdl()), Some(d));
    }
}

#[test]
fn edge_keywords() {
    assert_eq!(Edge::Bottom.as_kdl(), "bottom");
    assert_eq!(Edge::Top.display(), "Top");
    assert_eq!(Edge::parse("right"), Some(Edge::Right));
    assert_eq!(Edge::parse("middle"), None);
    for e in Edge::ALL {
        assert_eq!(Edge::parse(e.as_kdl()), Some(e));
        assert_eq!(Edge::from_index(e.index()), e);
    }
}

#[test]
fn zone_vocabulary_rotates_with_the_edge() {
    assert_eq!(EdgeZone::Start.as_kdl(Edge::Top), "left");
    assert_eq!(EdgeZone::End.as_kdl(Edge::Bottom), "right");
    assert_eq!(EdgeZone::Start.as_kdl(Edge::Left), "top");
    assert_eq!(EdgeZone::End.as_kdl(Edge::Right), "bottom");
    assert_eq!(EdgeZone::Center.as_kdl(Edge::Left), "center");
    assert_eq!(EdgeZone::Start.display(Edge::Top), "Left");
    assert_eq!(EdgeZone::End.display(Edge::Left), "Bottom");
    assert_eq!(EdgeZone::parse(Edge::Top, "left"), Some(EdgeZone::Start));
    assert_eq!(EdgeZone::parse(Edge::Left, "top"), Some(EdgeZone::Start));
    assert_eq!(EdgeZone::parse(Edge::Left, "left"), None);
    assert_eq!(EdgeZone::parse(Edge::Top, "top"), None);
    assert_eq!(EdgeZone::parse(Edge::Bottom, "full"), None);
    for e in Edge::ALL {
        for z in EdgeZone::ALL {
            assert_eq!(EdgeZone::parse(e, z.as_kdl(e)), Some(z));
        }
    }
}

#[test]
fn families() {
    assert_eq!(Trigger::TouchSwipe { fingers: 3, direction: SwipeDir::Up }.kdl_family(), "TouchSwipe");
    assert_eq!(Trigger::TouchEdge { edge: Edge::Left, zone: None }.kdl_family(), "TouchEdge");
    assert_eq!(Trigger::TouchpadTapHoldDrag { fingers: 3 }.kdl_family(), "TouchpadTapHoldDrag");
}

#[test]
fn keys_spell_out_the_trigger() {
    assert_eq!(Trigger::TouchSwipe { fingers: 3, direction: SwipeDir::Up }.key(), "TouchSwipe:3:up");
    assert_eq!(Trigger::TouchPinch { fingers: 4, direction: PinchDir::In }.key(), "TouchPinch:4:in");
    assert_eq!(Trigger::TouchRotate { fingers: 5, direction: RotateDir::Ccw }.key(), "TouchRotate:5:ccw");
    assert_eq!(Trigger::TouchEdge { edge: Edge::Left, zone: None }.key(), "TouchEdge:left:full");
    assert_eq!(
        Trigger::TouchEdge { edge: Edge::Top, zone: Some(EdgeZone::Start) }.key(),
        "TouchEdge:top:left"
    );
    assert_eq!(Trigger::TouchTap { fingers: 10 }.key(), "TouchTap:10");
    assert_eq!(Trigger::TouchTapHoldDrag { fingers: 3, direction: None }.key(), "TouchTapHoldDrag:3:any");
    assert_eq!(
        Trigger::TouchTapHoldDrag { fingers: 3, direction: Some(SwipeDir::Left) }.key(),
        "TouchTapHoldDrag:3:left"
    );
    assert_eq!(Trigger::TouchpadSwipe { fingers: 4, direction: SwipeDir::Down }.key(), "TouchpadSwipe:4:down");
    assert_eq!(Trigger::TouchpadTapHold { fingers: 3 }.key(), "TouchpadTapHold:3");
    assert_eq!(Trigger::TouchpadTapHoldDrag { fingers: 255 }.key(), "TouchpadTapHoldDrag:255");
}

#[test]
fn distinct_triggers_have_distinct_keys() {
    let ts = [
        Trigger::TouchSwipe { fingers: 3, direction: SwipeDir::Up },
        Trigger::TouchpadSwipe { fingers: 3, direction: SwipeDir::Up },
        Trigger::TouchSwipe { fingers: 4, direction: SwipeDir::Up },
        Trigger::TouchTap { fingers: 3 },
        Trigger::TouchpadTapHold { fingers: 3 },
        Trigger::TouchTapHoldDrag { fingers: 3, direction: None },
        Trigger::TouchTapHoldDrag { fingers: 3, direction: Some(SwipeDir::Up) },
        Trigger::TouchEdge { edge: Edge::Left, zone: None },
        Trigger::TouchEdge { edge: Edge::Left, zone: Some(EdgeZone::Center) },
        Trigger::TouchEdge { edge: Edge::Top, zone: Some(EdgeZone::Center) },
    ];
    for (i, a) in ts.iter().enumerate() {
        for (j, b) in ts.iter().enumerate() {
            assert_eq!(i == j, a.key() == b.key());
        }
    }
}

#[test]
fn display_names() {
    assert_eq!(
        Trigger::TouchSwipe { fingers: 3, direction: SwipeDir::Up }.display_name(),
        "3-Finger Swipe Up"
    );
    assert_eq!(
        Trigger::TouchPinch { fingers: 4, direction: PinchDir::Out }.display_name(),
        "4-Finger Pinch Out"
    );
    assert_eq!(
        Trigger::TouchRotate { fingers: 5, direction: RotateDir::Cw }.display_name(),
        "5-Finger Rotate Clockwise"
    );
    assert_eq!(Trigger::TouchEdge { edge: Edge::Right, zone: None }.display_name(), "Edge Right (full)");
    assert_eq!(
        Trigger::TouchEdge { edge: Edge::Top, zone: Some(EdgeZone::End) }.display_name(),
        "Edge Top \u{2014} Right"
    );
    assert_eq!(Trigger::TouchTap { fingers: 3 }.display_name(), "3-Finger Tap");
    assert_eq!(
        Trigger::TouchTapHoldDrag { fingers: 3, direction: None }.display_name(),
        "3-Finger Tap-Hold-Drag"
    );
    assert_eq!(
        Trigger::TouchTapHoldDrag { fingers: 4, direction: Some(SwipeDir::Down) }.display_name(),
        "4-Finger Tap-Hold-Drag Down"
    );
    assert_eq!(
        Trigger::TouchpadSwipe { fingers: 3, direction: SwipeDir::Left }.display_name(),
        "3-Finger Swipe Left"
    );
    assert_eq!(Trigger::TouchpadTapHold { fingers: 4 }.display_name(), "4-Finger Tap-Hold");
    assert_eq!(Trigger::TouchpadTapHoldDrag { fingers: 3 }.display_name(), "3-Finger Tap-Hold-Drag");
}

#[test]
fn write_props_spells_properties_in_order() {
    let mut n = Node::new("TouchEdge");
    Trigger::TouchEdge { edge: Edge::Bottom, zone: Some(EdgeZone::Center) }.write_props(&mut n);
    assert_eq!(n.entries.len(), 2);
    assert_eq!(n.entries[0].name.as_deref(), Some("edge"));
    assert!(matches!(&n.entries[0].value, Value::String(s) if s == "bottom"));
    assert_eq!(n.entries[0].style, Style::Quoted);
    assert_eq!(n.entries[1].name.as_deref(), Some("zone"));
    assert!(matches!(&n.entries[1].value, Value::String(s) if s == "center"));

    let mut n = Node::new("TouchSwipe");
    Trigger::TouchSwipe { fingers: 4, direction: SwipeDir::Left }.write_props(&mut n);
    assert_eq!(n.entries.len(), 2);
    assert_eq!(n.entries[0].name.as_deref(), Some("fingers"));
    assert!(matches!(n.entries[0].value, Value::Integer(4)));
    assert_eq!(n.entries[0].style, Style::Plain);
    assert!(matches!(&n.entries[1].value, Value::String(s) if s == "left"));

    let mut n = Node::new("TouchTapHoldDrag");
    Trigger::TouchTapHoldDrag { fingers: 3, direction: None }.write_props(&mut n);
    assert_eq!(n.entries.len(), 1);
}

#[test]
fn parse_node_reads_written_triggers() {
    let ts = [
        Trigger::TouchSwipe { fingers: 3, direction: SwipeDir::Up },
        Trigger::TouchPinch { fingers: 4, direction: PinchDir::In },
        Trigger::TouchRotate { fingers: 5, direction: RotateDir::Cw },
        Trigger::TouchEdge { edge: Edge::Left, zone: None },
        Trigger::TouchEdge { edge: Edge::Top, zone: Some(EdgeZone::End) },
        Trigger::TouchTap { fingers: 10 },
        Trigger::TouchTapHoldDrag { fingers: 3, direction: None },
        Trigger::TouchTapHoldDrag { fingers: 3, direction: Some(SwipeDir::Right) },
        Trigger::TouchpadSwipe { fingers: 3, direction: SwipeDir::Down },
        Trigger::TouchpadTapHold { fingers: 4 },
        Trigger::TouchpadTapHoldDrag { fingers: 3 },
    ];
    for t in ts {
        let mut n = Node::new(t.kdl_family());
        t.write_props(&mut n);
        assert_eq!(Trigger::parse_node(&n), Some(t));
    }
}

#[test]
fn parse_node_strips_modifiers() {
    let n = with_str(with_int(bind_node("Mod+Shift+TouchSwipe"), "fingers", 3), "direction", "up");
    assert_eq!(Trigger::parse_node(&n), Some(Trigger::TouchSwipe { fingers: 3, direction: SwipeDir::Up }));
}

#[test]
fn parse_node_checks_fingers() {
    assert_eq!(MIN_FINGERS, 3);
    assert_eq!(MAX_FINGERS, 10);
    for f in [2i128, 11, 300, -1] {
        let n = with_int(bind_node("TouchTap"), "fingers", f);
        assert_eq!(Trigger::parse_node(&n), None);
    }
    let n = with_int(bind_node("TouchTap"), "fingers", 10);
    assert_eq!(Trigger::parse_node(&n), Some(Trigger::TouchTap { fingers: 10 }));
    // no fingers at all
    assert_eq!(Trigger::parse_node(&bind_node("TouchpadTapHold")), None);
    // fingers as a string
    let n = with_str(bind_node("TouchTap"), "fingers", "3");
    assert_eq!(Trigger::parse_node(&n), None);
}

#[test]
fn parse_node_uses_the_last_property() {
    let n = with_int(with_int(bind_node("TouchTap"), "fingers", 3), "fingers", 4);
    assert_eq!(Trigger::parse_node(&n), Some(Trigger::TouchTap { fingers: 4 }));
}

#[test]
fn parse_node_refuses_bad_combinations() {
    // a zone from the other axis
    let n = with_str(with_str(bind_node("TouchEdge"), "edge", "left"), "zone", "left");
    assert_eq!(Trigger::parse_node(&n), None);
    // unknown direction
    let n = with_str(with_int(bind_node("TouchPinch"), "fingers", 3), "direction", "up");
    assert_eq!(Trigger::parse_node(&n), None);
    // unknown family
    let n = with_int(bind_node("Mod+T"), "fingers", 3);
    assert_eq!(Trigger::parse_node(&n), None);
    // tap-hold-drag with a bad direction
    let n = with_str(with_int(bind_node("TouchTapHoldDrag"), "fingers", 3), "direction", "in");
    assert_eq!(Trigger::parse_node(&n), None);
    // an argument is no property
    let mut n = bind_node("TouchEdge");
    n.push(Entry { name: None, value: Value::String("left".to_string()), style: Style::Plain });
    assert_eq!(Trigger::parse_node(&n), None);
}

#[test]
fn parse_node_reads_the_label() {
    // the family comes from the identifier as written: a quoted one does
    // not name a family
    let mut n = with_str(with_int(Node::new("TouchSwipe"), "fingers", 3), "direction", "up");
    n.label = "\"TouchSwipe\"".to_string();
    assert_eq!(Trigger::parse_node(&n), None);
}
