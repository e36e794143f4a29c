use niri_touch_settings::binds::TouchBindEntry;
use niri_touch_settings::document::Real;
use niri_touch_settings::editing::{
    action_args_for, add_bind, bind_matches, display_action_name, find_bind_index, form_trigger,
    new_bind_from_form, optional_text,
    remove_binds_with_key, touchpad_form_trigger, update_bind_trigger, zone_labels_for, Family,
    TriggerEdit, TriggerUpdate,
};
use niri_touch_settings::trigger::{Edge, EdgeZone, PinchDir, RotateDir, SwipeDir, Trigger};

fn bind(trigger: Trigger, action: &str) -> TouchBindEntry {
    TouchBindEntry {
        trigger,
        action_name: action.to_string(),
        action_args: Vec::new(),
        sensitivity: None,
        natural_scroll: false,
        tag: None,
        enabled: true,
    }
}

fn keys(binds: &[TouchBindEntry]) -> Vec<String> {
    binds.iter().map(|b| b.trigger.key()).collect()
}

const OPTIONS: &[(&str, &str)] = &[
    ("Focus Workspace Up", "focus-workspace-up"),
    ("Close Window", "close-window"),
    ("Spawn Command", "spawn"),
];

#[test]
fn edits_change_one_part_of_the_trigger() {
    let swipe = Trigger::TouchSwipe { fingers: 3, direction: SwipeDir::Up };
    assert_eq!(swipe.edited(TriggerEdit::Fingers(5)), Trigger::TouchSwipe { fingers: 5, direction: SwipeDir::Up });
    assert_eq!(swipe.edited(TriggerEdit::Direction(3)), Trigger::TouchSwipe { fingers: 3, direction: SwipeDir::Right });
    // menu indices count round the menu
    assert_eq!(swipe.edited(TriggerEdit::Direction(5)), Trigger::TouchSwipe { fingers: 3, direction: SwipeDir::Down });
    assert_eq!(swipe.edited(TriggerEdit::Edge(1)), swipe);
    let pinch = Trigger::TouchPinch { fingers: 3, direction: PinchDir::In };
    assert_eq!(pinch.edited(TriggerEdit::Direction(1)), Trigger::TouchPinch { fingers: 3, direction: PinchDir::Out });
    let rotate = Trigger::TouchRotate { fingers: 3, direction: RotateDir::Cw };
    assert_eq!(rotate.edited(TriggerEdit::Direction(3)), Trigger::TouchRotate { fingers: 3, direction: RotateDir::Ccw });
    let drag = Trigger::TouchTapHoldDrag { fingers: 3, direction: Some(SwipeDir::Up) };
    assert_eq!(drag.edited(TriggerEdit::Direction(0)), Trigger::TouchTapHoldDrag { fingers: 3, direction: None });
    assert_eq!(
        drag.edited(TriggerEdit::Direction(2)),
        Trigger::TouchTapHoldDrag { fingers: 3, direction: Some(SwipeDir::Down) }
    );
    let edge = Trigger::TouchEdge { edge: Edge::Left, zone: None };
    assert_eq!(edge.edited(TriggerEdit::Edge(2)), Trigger::TouchEdge { edge: Edge::Top, zone: None });
    assert_eq!(edge.edited(TriggerEdit::Edge(6)), Trigger::TouchEdge { edge: Edge::Top, zone: None });
    assert_eq!(edge.edited(TriggerEdit::Zone(3)), Trigger::TouchEdge { edge: Edge::Left, zone: Some(EdgeZone::End) });
    assert_eq!(edge.edited(TriggerEdit::Fingers(4)), edge);
    let tap = Trigger::TouchTap { fingers: 3 };
    assert_eq!(tap.edited(TriggerEdit::Direction(1)), tap);
    assert_eq!(tap.edited(TriggerEdit::Fingers(4)), Trigger::TouchTap { fingers: 4 });
}

#[test]
fn fingers_and_direction_index() {
    assert_eq!(Trigger::TouchTap { fingers: 6 }.fingers(), Some(6));
    assert_eq!(Trigger::TouchEdge { edge: Edge::Top, zone: None }.fingers(), None);
    assert_eq!(Trigger::TouchSwipe { fingers: 3, direction: SwipeDir::Left }.direction_index(), Some(2));
    assert_eq!(Trigger::TouchTapHoldDrag { fingers: 3, direction: None }.direction_index(), Some(0));
    assert_eq!(
        Trigger::TouchTapHoldDrag { fingers: 3, direction: Some(SwipeDir::Right) }.direction_index(),
        Some(4)
    );
    assert_eq!(Trigger::TouchRotate { fingers: 3, direction: RotateDir::Ccw }.direction_index(), Some(1));
    assert_eq!(Trigger::TouchpadTapHold { fingers: 3 }.direction_index(), None);
}

#[test]
fn find_by_key() {
    let binds = vec![
        bind(Trigger::TouchTap { fingers: 3 }, "a"),
        bind(Trigger::TouchTap { fingers: 4 }, "b"),
        bind(Trigger::TouchTap { fingers: 4 }, "c"),
    ];
    assert_eq!(find_bind_index(&binds, "TouchTap:4"), Some(1));
    assert_eq!(find_bind_index(&binds, "TouchTap:5"), None);
}

#[test]
fn update_outcomes() {
    let mut binds = vec![
        bind(Trigger::TouchSwipe { fingers: 3, direction: SwipeDir::Up }, "a"),
        bind(Trigger::TouchSwipe { fingers: 4, direction: SwipeDir::Up }, "b"),
    ];
    assert_eq!(update_bind_trigger(&mut binds, "TouchSwipe:5:up", TriggerEdit::Fingers(6)), TriggerUpdate::Missing);
    assert_eq!(
        update_bind_trigger(&mut binds, "TouchSwipe:3:up", TriggerEdit::Direction(0)),
        TriggerUpdate::Unchanged
    );
    assert_eq!(
        update_bind_trigger(&mut binds, "TouchSwipe:3:up", TriggerEdit::Fingers(4)),
        TriggerUpdate::Collision
    );
    assert_eq!(keys(&binds), vec!["TouchSwipe:3:up", "TouchSwipe:4:up"]);
    let t = Trigger::TouchSwipe { fingers: 3, direction: SwipeDir::Down };
    assert_eq!(
        update_bind_trigger(&mut binds, "TouchSwipe:3:up", TriggerEdit::Direction(1)),
        TriggerUpdate::Updated(t)
    );
    assert_eq!(keys(&binds), vec!["TouchSwipe:3:down", "TouchSwipe:4:up"]);
    assert_eq!(binds[0].action_name, "a");
}

#[test]
fn add_refuses_a_key_that_is_there() {
    let mut binds = vec![bind(Trigger::TouchTap { fingers: 3 }, "a")];
    assert!(!add_bind(&mut binds, bind(Trigger::TouchTap { fingers: 3 }, "b")));
    assert_eq!(binds.len(), 1);
    assert_eq!(binds[0].action_name, "a");
    assert!(add_bind(&mut binds, bind(Trigger::TouchpadTapHold { fingers: 3 }, "b")));
    assert_eq!(keys(&binds), vec!["TouchTap:3", "TouchpadTapHold:3"]);
}

#[test]
fn remove_deletes_every_bind_with_the_key() {
    let mut binds = vec![
        bind(Trigger::TouchTap { fingers: 3 }, "a"),
        bind(Trigger::TouchTap { fingers: 4 }, "b"),
        bind(Trigger::TouchTap { fingers: 3 }, "c"),
        bind(Trigger::TouchTap { fingers: 5 }, "d"),
    ];
    remove_binds_with_key(&mut binds, "TouchTap:3");
    assert_eq!(keys(&binds), vec!["TouchTap:4", "TouchTap:5"]);
    assert_eq!(find_bind_index(&binds, "TouchTap:3"), None);
    // removing a key nobody has changes nothing
    remove_binds_with_key(&mut binds, "TouchTap:3");
    assert_eq!(keys(&binds), vec!["TouchTap:4", "TouchTap:5"]);
}

#[test]
fn keys_stay_unique_through_edits() {
    let mut binds = Vec::new();
    for f in 3..=6u8 {
        assert!(add_bind(&mut binds, bind(Trigger::TouchTap { fingers: f }, "x")));
    }
    for f in 3..=6u8 {
        let key = Trigger::TouchTap { fingers: f }.key();
        let _ = update_bind_trigger(&mut binds, &key, TriggerEdit::Fingers(f + 1));
    }
    let mut ks = keys(&binds);
    ks.sort();
    ks.dedup();
    assert_eq!(ks.len(), binds.len());
}

#[test]
fn family_menu() {
    assert_eq!(Family::all_labels(), ["Swipe", "Pinch", "Rotate", "Edge", "Tap", "Tap-Hold-Drag"]);
    assert_eq!(Family::from_index(0), Family::Swipe);
    assert_eq!(Family::from_index(3), Family::Edge);
    assert_eq!(Family::from_index(5), Family::TapHoldDrag);
    assert_eq!(Family::from_index(40), Family::TapHoldDrag);
}

#[test]
fn touchscreen_form() {
    assert_eq!(
        form_trigger(Family::Swipe, 3, 1, 0, 0),
        Trigger::TouchSwipe { fingers: 3, direction: SwipeDir::Down }
    );
    assert_eq!(form_trigger(Family::Pinch, 4, 1, 0, 0), Trigger::TouchPinch { fingers: 4, direction: PinchDir::Out });
    assert_eq!(form_trigger(Family::Rotate, 5, 0, 0, 0), Trigger::TouchRotate { fingers: 5, direction: RotateDir::Cw });
    assert_eq!(form_trigger(Family::Edge, 3, 0, 3, 0), Trigger::TouchEdge { edge: Edge::Bottom, zone: None });
    assert_eq!(
        form_trigger(Family::Edge, 3, 0, 2, 1),
        Trigger::TouchEdge { edge: Edge::Top, zone: Some(EdgeZone::Start) }
    );
    assert_eq!(form_trigger(Family::Tap, 4, 2, 1, 1), Trigger::TouchTap { fingers: 4 });
    assert_eq!(form_trigger(Family::TapHoldDrag, 3, 0, 0, 0), Trigger::TouchTapHoldDrag { fingers: 3, direction: None });
    assert_eq!(
        form_trigger(Family::TapHoldDrag, 3, 4, 0, 0),
        Trigger::TouchTapHoldDrag { fingers: 3, direction: Some(SwipeDir::Right) }
    );
}

#[test]
fn touchpad_form() {
    assert_eq!(touchpad_form_trigger(3, 2), Some(Trigger::TouchpadSwipe { fingers: 3, direction: SwipeDir::Left }));
    assert_eq!(touchpad_form_trigger(10, 3), Some(Trigger::TouchpadSwipe { fingers: 10, direction: SwipeDir::Right }));
    // no direction picked: no trigger
    assert_eq!(touchpad_form_trigger(4, 4), None);
    assert_eq!(touchpad_form_trigger(3, u32::MAX), None);
    // finger counts are held to 3..=10
    assert_eq!(touchpad_form_trigger(0, 0), Some(Trigger::TouchpadSwipe { fingers: 3, direction: SwipeDir::Up }));
    assert_eq!(touchpad_form_trigger(200, 0), Some(Trigger::TouchpadSwipe { fingers: 10, direction: SwipeDir::Up }));
}

#[test]
fn bind_from_the_add_form() {
    let binds = vec![bind(Trigger::TouchTap { fingers: 3 }, "a")];
    // the key is taken
    assert!(new_bind_from_form(&binds, Trigger::TouchTap { fingers: 3 }, "noop", "", None, false, String::new()).is_none());
    // spawn without a command
    assert!(new_bind_from_form(&binds, Trigger::TouchTap { fingers: 4 }, "spawn", "", None, false, String::new()).is_none());
    let b = new_bind_from_form(
        &binds,
        Trigger::TouchTap { fingers: 4 },
        "spawn",
        "foot -e htop",
        Some(Real::Bits(2.5f64.to_bits())),
        true,
        "launcher".to_string(),
    )
    .unwrap();
    assert_eq!(b.trigger, Trigger::TouchTap { fingers: 4 });
    assert_eq!(b.action_name, "spawn");
    assert_eq!(b.action_args, vec!["foot -e htop".to_string()]);
    assert_eq!(b.sensitivity, Some(Real::Bits(2.5f64.to_bits())));
    assert!(b.natural_scroll);
    assert_eq!(b.tag.as_deref(), Some("launcher"));
    assert!(b.enabled);
    let b = new_bind_from_form(&binds, Trigger::TouchTap { fingers: 5 }, "close-window", "ignored", None, false, String::new())
        .unwrap();
    assert!(b.action_args.is_empty());
    assert_eq!(b.tag, None);
    assert_eq!(b.sensitivity, None);
}

#[test]
fn bind_filter() {
    assert!(bind_matches("", "3-Finger Swipe Up", "Close Window"));
    assert!(bind_matches("SWIPE", "3-Finger Swipe Up", "Close Window"));
    assert!(bind_matches("close", "3-Finger Swipe Up", "Close Window"));
    assert!(bind_matches("wIn", "3-Finger Swipe Up", "Close Window"));
    assert!(!bind_matches("pinch", "3-Finger Swipe Up", "Close Window"));
    assert!(bind_matches("\u{c9}CRAN", "\u{e9}cran", ""));
}

#[test]
fn zone_labels() {
    assert_eq!(zone_labels_for(Edge::Left), ["Full", "Top", "Center", "Bottom"]);
    assert_eq!(zone_labels_for(Edge::Bottom), ["Full", "Left", "Center", "Right"]);
}

#[test]
fn entry_texts() {
    assert_eq!(optional_text(String::new()), None);
    assert_eq!(optional_text("tag".to_string()).as_deref(), Some("tag"));
    assert_eq!(action_args_for("spawn", ""), None);
    assert_eq!(action_args_for("spawn", "foot --server"), Some(vec!["foot --server".to_string()]));
    assert_eq!(action_args_for("close-window", "ignored"), Some(Vec::new()));
}

#[test]
fn action_names() {
    let args = vec!["foot".to_string(), "-e".to_string(), "htop".to_string()];
    assert_eq!(display_action_name("spawn", &args, OPTIONS), "Spawn: foot -e htop");
    assert_eq!(display_action_name("spawn", &[], OPTIONS), "Spawn Command");
    assert_eq!(display_action_name("close-window", &[], OPTIONS), "Close Window");
    assert_eq!(display_action_name("focus-column-left", &[], OPTIONS), "Focus Column Left");
    assert_eq!(display_action_name("noop", &[], &[]), "Noop");
    assert_eq!(display_action_name("a--b-", &[], &[]), "A  B ");
    assert_eq!(display_action_name("", &[], &[]), "");
    assert_eq!(display_action_name("x1-9y", &[], &[]), "X1 9y");
    assert_eq!(display_action_name("\u{e9}cran", &[], &[]), "\u{c9}cran");
}

#[test]
fn current_menu_entries_give_the_trigger_back() {
    let ts = [
        Trigger::TouchSwipe { fingers: 4, direction: SwipeDir::Right },
        Trigger::TouchPinch { fingers: 3, direction: PinchDir::Out },
        Trigger::TouchRotate { fingers: 5, direction: RotateDir::Ccw },
        Trigger::TouchTap { fingers: 7 },
        Trigger::TouchTapHoldDrag { fingers: 3, direction: None },
        Trigger::TouchTapHoldDrag { fingers: 3, direction: Some(SwipeDir::Left) },
        Trigger::TouchpadSwipe { fingers: 3, direction: SwipeDir::Down },
        Trigger::TouchpadTapHold { fingers: 4 },
    ];
    for t in ts {
        if let Some(f) = t.fingers() {
            assert_eq!(t.edited(TriggerEdit::Fingers(f)), t);
        }
        if let Some(i) = t.direction_index() {
            assert_eq!(t.edited(TriggerEdit::Direction(i)), t);
        }
    }
    for e in Edge::ALL {
        let t = Trigger::TouchEdge { edge: e, zone: Some(EdgeZone::End) };
        assert_eq!(t.edited(TriggerEdit::Edge(e.index())), t);
        assert_eq!(t.edited(TriggerEdit::Zone(EdgeZone::End.index() + 1)), t);
        let full = Trigger::TouchEdge { edge: e, zone: None };
        assert_eq!(full.edited(TriggerEdit::Zone(0)), full);
    }
}
