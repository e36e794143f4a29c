use niri_touch_settings::binds::{read_gesture_binds, write_gesture_binds, TouchBindEntry};
use niri_touch_settings::document::{
    has_child, read_float_arg, read_int_arg, read_optional_bool, read_string_arg, write_flag_node,
    write_float_node, write_string_node, Entry, Node, Real, Style, Value,
};
use niri_touch_settings::settings::{
    parse_touchpad_settings, parse_touchpad_text, parse_touchscreen_settings,
    parse_touchscreen_text, touchpad_document, touchscreen_document, TouchpadSettings,
    TouchscreenSettings,
};
use niri_touch_settings::trigger::{Edge, EdgeZone, PinchDir, SwipeDir, Trigger};

fn bits(v: f64) -> Real {
    Real::Bits(v.to_bits())
}

fn bind(trigger: Trigger, action: &str, args: &[&str]) -> TouchBindEntry {
    TouchBindEntry {
        trigger,
        action_name: action.to_string(),
        action_args: args.iter().map(|a| a.to_string()).collect(),
        sensitivity: None,
        natural_scroll: false,
        tag: None,
        enabled: true,
    }
}

fn same_bind(a: &TouchBindEntry, b: &TouchBindEntry) -> bool {
    a.trigger == b.trigger
        && a.action_name == b.action_name
        && a.action_args == b.action_args
        && a.sensitivity == b.sensitivity
        && a.natural_scroll == b.natural_scroll
        && a.tag == b.tag
        && a.enabled == b.enabled
}

fn same_binds(a: &[TouchBindEntry], b: &[TouchBindEntry]) -> bool {
    a.len() == b.len() && a.iter().zip(b.iter()).all(|(x, y)| same_bind(x, y))
}

fn block(name: &str, kids: Vec<Node>) -> Node {
    let mut n = Node::new(name);
    n.children = Some(kids);
    n
}

#[test]
fn touchscreen_defaults() {
    let d = TouchscreenSettings::default();
    assert!(!d.off);
    assert!(!d.natural_scroll);
    assert!(d.map_to_output.is_none());
    assert_eq!(d.swipe_trigger_distance, bits(100.0));
    assert_eq!(d.edge_start_distance, bits(12.0));
    assert_eq!(d.pinch_trigger_distance, bits(100.0));
    assert_eq!(d.pinch_dominance_ratio, bits(1.0));
    assert_eq!(d.pinch_sensitivity, bits(1.0));
    assert_eq!(d.swipe_multi_finger_scale, bits(1.2));
    assert_eq!(d.rotation_trigger_angle, bits(20.0));
    assert_eq!(d.rotation_dominance_ratio, bits(0.5));
    assert_eq!(d.rotation_progress_angle, bits(90.0));
    assert_eq!(d.tap_wobble_threshold, bits(15.0));
    assert_eq!(d.tap_timeout_ms, bits(500.0));
    assert_eq!(d.tap_hold_trigger_delay_ms, bits(200.0));
    assert_eq!(d.swipe_progress_distance, bits(200.0));
    assert!(d.binds.is_empty());
}

#[test]
fn touchpad_defaults() {
    let d = TouchpadSettings::default();
    assert!(!d.off && !d.tap && !d.dwt && !d.dwtp && !d.drag_lock && !d.natural_scroll);
    assert_eq!(d.drag, None);
    assert_eq!(d.accel_speed, bits(0.0));
    assert_eq!(d.scroll_button, None);
    assert_eq!(d.scroll_factor, None);
    assert_eq!(d.swipe_trigger_distance, bits(16.0));
    assert_eq!(d.swipe_progress_distance, bits(40.0));
    assert!(d.binds.is_empty());
}

#[test]
fn empty_document_gives_defaults() {
    let s = parse_touchscreen_settings(&Vec::new());
    assert_eq!(s.swipe_trigger_distance, bits(100.0));
    assert!(s.binds.is_empty());
    let p = parse_touchpad_settings(&Vec::new(), &Vec::new());
    assert_eq!(p.swipe_progress_distance, bits(40.0));
}

#[test]
fn binds_without_a_device_block_are_not_read() {
    let b = bind(Trigger::TouchTap { fingers: 3 }, "close-window", &[]);
    let mut doc = Vec::new();
    write_gesture_binds(&mut doc, &[b]);
    let s = parse_touchscreen_settings(&doc);
    assert!(s.binds.is_empty());
}

#[test]
fn touchscreen_block_is_read() {
    let mut g = Vec::new();
    write_float_node(&mut g, "edge-start-distance", bits(30.0));
    // an integer reads as that number
    let mut n = Node::new("tap-timeout-ms");
    n.push(Entry { name: None, value: Value::Integer(250), style: Style::Plain });
    g.push(n);
    let mut ts = Vec::new();
    write_flag_node(&mut ts, "natural-scroll");
    write_string_node(&mut ts, "map-to-output", "eDP-1");
    ts.push(block("gestures", g));
    let doc = vec![block("input", vec![block("touchscreen", ts)])];
    let s = parse_touchscreen_settings(&doc);
    assert!(!s.off);
    assert!(s.natural_scroll);
    assert_eq!(s.map_to_output.as_deref(), Some("eDP-1"));
    assert_eq!(s.edge_start_distance, bits(30.0));
    assert_eq!(s.tap_timeout_ms, Real::Int(250));
    assert_eq!(s.swipe_trigger_distance, bits(100.0));
}

#[test]
fn touchscreen_settings_round_trip() {
    let mut s = TouchscreenSettings::default();
    s.off = true;
    s.map_to_output = Some("HDMI-A-1".to_string());
    s.pinch_sensitivity = bits(1.75);
    s.tap_timeout_ms = Real::Int(300);
    let mut spawn = bind(Trigger::TouchSwipe { fingers: 3, direction: SwipeDir::Up }, "spawn", &["foot", "-e", "htop"]);
    spawn.tag = Some("launcher".to_string());
    spawn.sensitivity = Some(bits(0.5));
    spawn.natural_scroll = true;
    let disabled = TouchBindEntry { enabled: false, ..bind(Trigger::TouchTap { fingers: 4 }, "close-window", &[]) };
    let nameless = bind(Trigger::TouchTap { fingers: 5 }, "", &[]);
    let bad_fingers = bind(Trigger::TouchTap { fingers: 2 }, "close-window", &[]);
    let edge = bind(Trigger::TouchEdge { edge: Edge::Top, zone: Some(EdgeZone::Center) }, "toggle-overview", &[]);
    s.binds = vec![spawn.clone(), disabled, nameless, bad_fingers, edge.clone()];

    let doc = touchscreen_document(&s);
    assert_eq!(doc.len(), 2);
    let r = parse_touchscreen_settings(&doc);
    assert!(r.off);
    assert!(!r.natural_scroll);
    assert_eq!(r.map_to_output.as_deref(), Some("HDMI-A-1"));
    assert_eq!(r.pinch_sensitivity, bits(1.75));
    assert_eq!(r.tap_timeout_ms, Real::Int(300));
    assert_eq!(r.rotation_progress_angle, bits(90.0));
    assert!(same_binds(&r.binds, &[spawn, edge]));
}

#[test]
fn touchpad_settings_round_trip() {
    let mut s = TouchpadSettings::default();
    s.tap = true;
    s.dwt = true;
    s.drag = Some(false);
    s.natural_scroll = true;
    s.click_method = Some("clickfinger".to_string());
    s.accel_speed = bits(0.25);
    s.accel_profile = Some("flat".to_string());
    s.scroll_method = Some("two-finger".to_string());
    s.scroll_button = Some(273);
    s.scroll_button_lock = true;
    s.tap_button_map = Some("left-right-middle".to_string());
    s.middle_emulation = true;
    s.scroll_factor = Some(bits(1.5));
    s.swipe_trigger_distance = bits(20.0);
    let b = bind(Trigger::TouchpadSwipe { fingers: 4, direction: SwipeDir::Left }, "focus-workspace-down", &[]);
    s.binds = vec![b.clone()];

    let doc = touchpad_document(&s);
    let r = parse_touchpad_settings(&doc, &doc);
    assert!(r.tap && r.dwt && !r.dwtp && !r.off && r.natural_scroll && r.scroll_button_lock);
    assert!(r.middle_emulation && !r.left_handed && !r.disabled_on_external_mouse && !r.drag_lock);
    assert_eq!(r.drag, Some(false));
    assert_eq!(r.click_method.as_deref(), Some("clickfinger"));
    assert_eq!(r.accel_speed, bits(0.25));
    assert_eq!(r.accel_profile.as_deref(), Some("flat"));
    assert_eq!(r.scroll_method.as_deref(), Some("two-finger"));
    assert_eq!(r.scroll_button, Some(273));
    assert_eq!(r.tap_button_map.as_deref(), Some("left-right-middle"));
    assert_eq!(r.scroll_factor, Some(bits(1.5)));
    assert_eq!(r.swipe_trigger_distance, bits(20.0));
    assert_eq!(r.swipe_progress_distance, bits(40.0));
    assert!(same_binds(&r.binds, &[b]));
}

#[test]
fn zero_acceleration_is_not_written() {
    let s = TouchpadSettings::default();
    let doc = touchpad_document(&s);
    let tp = doc[0].children.as_ref().unwrap()[0].children.as_ref().unwrap();
    assert!(!has_child(tp, "accel-speed"));
    assert!(has_child(tp, "gestures"));
    assert!(!has_child(tp, "drag"));
    // no binds, no binds block
    assert_eq!(doc.len(), 1);
}

#[test]
fn touchpad_binds_come_from_the_second_document() {
    let b = bind(Trigger::TouchpadTapHold { fingers: 3 }, "noop", &[]);
    let mut s = TouchpadSettings::default();
    s.binds = vec![b.clone()];
    let doc = touchpad_document(&s);
    let without = touchpad_document(&TouchpadSettings::default());
    let r = parse_touchpad_settings(&without, &doc);
    assert!(same_binds(&r.binds, &[b]));
    let r = parse_touchpad_settings(&doc, &without);
    assert!(r.binds.is_empty());
}

#[test]
fn readers() {
    let mut doc = Vec::new();
    write_string_node(&mut doc, "click-method", "button-areas");
    let mut n = Node::new("scroll-button");
    n.push(Entry { name: None, value: Value::Integer(274), style: Style::Plain });
    doc.push(n);
    write_flag_node(&mut doc, "drag");
    let mut n = Node::new("drag-lock");
    n.push(Entry { name: None, value: Value::Bool(false), style: Style::Plain });
    doc.push(n);
    let mut n = Node::new("tap");
    n.push(Entry { name: None, value: Value::Integer(1), style: Style::Plain });
    doc.push(n);
    write_float_node(&mut doc, "scroll-factor", bits(0.5));

    assert_eq!(read_string_arg(&doc, "click-method").as_deref(), Some("button-areas"));
    assert_eq!(read_string_arg(&doc, "scroll-button"), None);
    assert_eq!(read_string_arg(&doc, "missing"), None);
    assert_eq!(read_int_arg(&doc, "scroll-button"), Some(274));
    assert_eq!(read_int_arg(&doc, "scroll-factor"), None);
    assert_eq!(read_float_arg(&doc, "scroll-factor"), Some(bits(0.5)));
    assert_eq!(read_float_arg(&doc, "scroll-button"), Some(Real::Int(274)));
    assert_eq!(read_float_arg(&doc, "click-method"), None);
    assert_eq!(read_optional_bool(&doc, "drag"), Some(true));
    assert_eq!(read_optional_bool(&doc, "drag-lock"), Some(false));
    assert_eq!(read_optional_bool(&doc, "tap"), None);
    assert_eq!(read_optional_bool(&doc, "missing"), None);
}

#[test]
fn the_first_node_of_a_name_counts() {
    let mut doc = Vec::new();
    write_string_node(&mut doc, "accel-profile", "flat");
    write_string_node(&mut doc, "accel-profile", "adaptive");
    assert_eq!(read_string_arg(&doc, "accel-profile").as_deref(), Some("flat"));
}

#[test]
fn written_binds_block() {
    let mut b = bind(Trigger::TouchPinch { fingers: 4, direction: PinchDir::In }, "spawn", &["fuzzel"]);
    b.sensitivity = Some(bits(2.0));
    let mut doc = Vec::new();
    write_gesture_binds(&mut doc, &[b]);
    assert_eq!(doc.len(), 1);
    assert_eq!(doc[0].name, "binds");
    let kids = doc[0].children.as_ref().unwrap();
    assert_eq!(kids.len(), 1);
    let n = &kids[0];
    assert_eq!(n.name, "TouchPinch");
    assert_eq!(n.entries.len(), 3);
    assert_eq!(n.entries[2].name.as_deref(), Some("sensitivity"));
    assert!(matches!(n.entries[2].value, Value::Float(r) if r == bits(2.0)));
    let action = &n.children.as_ref().unwrap()[0];
    assert_eq!(action.name, "spawn");
    assert_eq!(action.entries.len(), 1);
    assert_eq!(action.entries[0].style, Style::SpacedQuoted);

    let mut empty = Vec::new();
    write_gesture_binds(&mut empty, &[]);
    assert!(empty.is_empty());
}

#[test]
fn reading_binds_skips_what_is_not_a_bind() {
    // a node that is no trigger
    let mut other = Node::new("Mod+T");
    other.children = Some(vec![Node::new("spawn")]);
    // a trigger without an action
    let mut no_action = Node::new("TouchTap");
    Trigger::TouchTap { fingers: 3 }.write_props(&mut no_action);
    // a trigger whose action has an argument, a property and a number
    let mut good = Node::new("TouchTap");
    Trigger::TouchTap { fingers: 4 }.write_props(&mut good);
    good.push(Entry { name: Some("sensitivity".to_string()), value: Value::Integer(2), style: Style::Plain });
    good.push(Entry { name: Some("natural-scroll".to_string()), value: Value::Bool(true), style: Style::Plain });
    good.push(Entry { name: Some("tag".to_string()), value: Value::String("t".to_string()), style: Style::Quoted });
    let mut action = Node::new("spawn");
    action.push(Entry { name: None, value: Value::String("foot".to_string()), style: Style::Plain });
    action.push(Entry { name: Some("x".to_string()), value: Value::String("no".to_string()), style: Style::Plain });
    action.push(Entry { name: None, value: Value::Integer(3), style: Style::Plain });
    action.push(Entry { name: None, value: Value::String("-e".to_string()), style: Style::Plain });
    good.children = Some(vec![action, Node::new("ignored")]);

    let binds = read_gesture_binds(&vec![other, no_action, good]);
    assert_eq!(binds.len(), 1);
    let b = &binds[0];
    assert_eq!(b.trigger, Trigger::TouchTap { fingers: 4 });
    assert_eq!(b.action_name, "spawn");
    assert_eq!(b.action_args, vec!["foot".to_string(), "-e".to_string()]);
    assert_eq!(b.sensitivity, Some(Real::Int(2)));
    assert!(b.natural_scroll);
    assert_eq!(b.tag.as_deref(), Some("t"));
    assert!(b.enabled);
}

#[test]
fn map_to_output_is_written_in_quotes() {
    let mut s = TouchscreenSettings::default();
    s.map_to_output = Some("eDP-1".to_string());
    let doc = touchscreen_document(&s);
    let ts = doc[0].children.as_ref().unwrap()[0].children.as_ref().unwrap();
    let n = ts.iter().find(|n| n.name == "map-to-output").unwrap();
    assert_eq!(n.entries.len(), 1);
    assert_eq!(n.entries[0].style, Style::SpacedQuoted);
    assert!(matches!(&n.entries[0].value, Value::String(v) if v == "eDP-1"));
}

#[test]
fn touchscreen_text_is_read() {
    let text = "input {\n    touchscreen {\n        natural-scroll\n        map-to-output \"eDP-1\"\n        gestures {\n            swipe-trigger-distance 50.0\n            tap-timeout-ms 300\n        }\n    }\n}\nbinds {\n    TouchSwipe fingers=3 direction=\"up\" natural-scroll=true tag=\"ws\" {\n        spawn \"foot\"\n    }\n    Mod+T { close-window; }\n}\n";
    let s = parse_touchscreen_text(text);
    assert!(s.natural_scroll);
    assert!(!s.off);
    assert_eq!(s.map_to_output.as_deref(), Some("eDP-1"));
    assert_eq!(s.swipe_trigger_distance, bits(50.0));
    assert_eq!(s.tap_timeout_ms, Real::Int(300));
    assert_eq!(s.edge_start_distance, bits(12.0));
    assert_eq!(s.binds.len(), 1);
    let b = &s.binds[0];
    assert_eq!(b.trigger, Trigger::TouchSwipe { fingers: 3, direction: SwipeDir::Up });
    assert_eq!(b.action_name, "spawn");
    assert_eq!(b.action_args, vec!["foot".to_string()]);
    assert!(b.natural_scroll);
    assert_eq!(b.tag.as_deref(), Some("ws"));
}

#[test]
fn touchpad_text_is_read() {
    let text = "input {\n    touchpad {\n        tap\n        drag false\n        accel-speed 0.25\n        scroll-method \"two-finger\"\n        scroll-button 273\n    }\n}\nbinds {\n    TouchpadSwipe fingers=4 direction=\"left\" {\n        focus-workspace-down\n    }\n}\n";
    let s = parse_touchpad_text(text);
    assert!(s.tap);
    assert!(!s.dwt);
    assert_eq!(s.drag, Some(false));
    assert_eq!(s.accel_speed, bits(0.25));
    assert_eq!(s.scroll_method.as_deref(), Some("two-finger"));
    assert_eq!(s.scroll_button, Some(273));
    assert_eq!(s.binds.len(), 1);
    assert_eq!(s.binds[0].trigger, Trigger::TouchpadSwipe { fingers: 4, direction: SwipeDir::Left });
}

#[test]
fn unreadable_text_gives_defaults() {
    let s = parse_touchscreen_text("input {");
    assert!(!s.off);
    assert_eq!(s.swipe_trigger_distance, bits(100.0));
    let p = parse_touchpad_text("}}");
    assert!(!p.tap);
    assert_eq!(p.swipe_trigger_distance, bits(16.0));
}

#[test]
fn drag_is_written_in_v1_spelling() {
    let mut s = TouchpadSettings::default();
    s.drag = Some(true);
    let doc = touchpad_document(&s);
    let tp = doc[0].children.as_ref().unwrap()[0].children.as_ref().unwrap();
    let n = tp.iter().find(|n| n.name == "drag").unwrap();
    assert_eq!(n.entries.len(), 1);
    assert_eq!(n.entries[0].style, Style::V1Bool);
    assert!(matches!(n.entries[0].value, Value::Bool(true)));
}

#[test]
fn touchpad_device_block_is_read_from_the_text_as_it_is() {
    // a KDL v1 file: the parser falls back to KDL v1
    let s = parse_touchpad_text("input {\n    touchpad {\n        drag true\n        tap\n    }\n}\n");
    assert_eq!(s.drag, Some(true));
    assert!(s.tap);
}
