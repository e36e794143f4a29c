//! Touchscreen and touchpad settings, and the gesture files that hold them.

use vstd::prelude::*;
use crate::document::{
    Node, NodeView, Real, nodes_view, find_node, has_node, first_value, bare_node, with_children,
    string_node, float_node, spec_read_string_arg, spec_read_float_arg, spec_read_int_arg,
    spec_read_optional_bool, get_node, children, has_child, read_string_arg, read_float_arg,
    read_int_arg, read_optional_bool, write_flag_node, write_string_node, write_float_node,
    push_node, Entry, EntryView, Value, ValueView, Style,
};
use crate::document::{kdl_document, parse_document};
use crate::text::{kdl_v1_to_v2, spec_v1_to_v2};
use crate::binds::{
    TouchBindEntry, BindView, binds_view, spec_read_binds, read_gesture_binds, write_gesture_binds,
    binds_block, opt_string_view,
};

verus! {

broadcast use vstd::string::group_string_axioms;

// ---------------------------------------------------------------------------
// Navigation
// ---------------------------------------------------------------------------

/// The child block of the first node named `name`, if both exist.
pub open spec fn child_block(doc: Seq<NodeView>, name: Seq<char>) -> Option<Seq<NodeView>> {
    match find_node(doc, name) {
        Some(n) => n.children,
        None => None,
    }
}

/// The block `input { <device> { ... } }` of a document.
pub open spec fn device_block(doc: Seq<NodeView>, device: Seq<char>) -> Option<Seq<NodeView>> {
    match child_block(doc, "input"@) {
        Some(input) => child_block(input, device),
        None => None,
    }
}

/// The number under `name` in an optional block, or `default`.
pub open spec fn real_or(block: Option<Seq<NodeView>>, name: Seq<char>, default: Real) -> Real {
    match block {
        Some(b) => match spec_read_float_arg(b, name) {
            Some(v) => v,
            None => default,
        },
        None => default,
    }
}

/// The binds of a document's top-level `binds {}` block.
pub open spec fn document_binds(doc: Seq<NodeView>) -> Seq<BindView> {
    match child_block(doc, "binds"@) {
        Some(b) => spec_read_binds(b),
        None => Seq::empty(),
    }
}

/// The child block of the first node named `name`.
pub fn get_child_block<'a>(doc: &'a Vec<Node>, name: &str) -> (r: Option<&'a Vec<Node>>)
    ensures
        match r {
            Some(c) => child_block(nodes_view(doc@), name@) == Some(nodes_view(c@)),
            None => child_block(nodes_view(doc@), name@) is None,
        },
{
    let node = get_node(doc, name)?;
    children(node)
}

/// The number under `name` in `block`, or `default`.
fn read_real_or(block: Option<&Vec<Node>>, name: &str, default: Real) -> (r: Real)
    ensures
        r == real_or(
            match block {
                Some(b) => Some(nodes_view(b@)),
                None => None,
            },
            name@,
            default,
        ),
{
    match block {
        Some(b) => match read_float_arg(b, name) {
            Some(v) => v,
            None => default,
        },
        None => default,
    }
}

// ---------------------------------------------------------------------------
// Touchscreen settings
// ---------------------------------------------------------------------------

#[derive(Debug, Clone)]
pub struct TouchscreenSettings {
    pub off: bool,
    pub natural_scroll: bool,
    pub map_to_output: Option<String>,
    // Classifier commit gates
    pub swipe_trigger_distance: Real,
    pub edge_start_distance: Real,
    pub pinch_trigger_distance: Real,
    pub pinch_dominance_ratio: Real,
    pub pinch_sensitivity: Real,
    pub swipe_multi_finger_scale: Real,
    // Rotation detection
    pub rotation_trigger_angle: Real,
    pub rotation_dominance_ratio: Real,
    pub rotation_progress_angle: Real,
    // Tap detection
    pub tap_wobble_threshold: Real,
    pub tap_timeout_ms: Real,
    pub tap_hold_trigger_delay_ms: Real,
    // IPC progress scaling
    pub swipe_progress_distance: Real,
    // Dynamic touch binds
    pub binds: Vec<TouchBindEntry>,
}

/// The mathematical content of [`TouchscreenSettings`].
pub struct TouchscreenView {
    pub off: bool,
    pub natural_scroll: bool,
    pub map_to_output: Option<Seq<char>>,
    pub swipe_trigger_distance: Real,
    pub edge_start_distance: Real,
    pub pinch_trigger_distance: Real,
    pub pinch_dominance_ratio: Real,
    pub pinch_sensitivity: Real,
    pub swipe_multi_finger_scale: Real,
    pub rotation_trigger_angle: Real,
    pub rotation_dominance_ratio: Real,
    pub rotation_progress_angle: Real,
    pub tap_wobble_threshold: Real,
    pub tap_timeout_ms: Real,
    pub tap_hold_trigger_delay_ms: Real,
    pub swipe_progress_distance: Real,
    pub binds: Seq<BindView>,
}

impl View for TouchscreenSettings {
    type V = TouchscreenView;

    open spec fn view(&self) -> TouchscreenView {
        TouchscreenView {
            off: self.off,
            natural_scroll: self.natural_scroll,
            map_to_output: opt_string_view(self.map_to_output),
            swipe_trigger_distance: self.swipe_trigger_distance,
            edge_start_distance: self.edge_start_distance,
            pinch_trigger_distance: self.pinch_trigger_distance,
            pinch_dominance_ratio: self.pinch_dominance_ratio,
            pinch_sensitivity: self.pinch_sensitivity,
            swipe_multi_finger_scale: self.swipe_multi_finger_scale,
            rotation_trigger_angle: self.rotation_trigger_angle,
            rotation_dominance_ratio: self.rotation_dominance_ratio,
            rotation_progress_angle: self.rotation_progress_angle,
            tap_wobble_threshold: self.tap_wobble_threshold,
            tap_timeout_ms: self.tap_timeout_ms,
            tap_hold_trigger_delay_ms: self.tap_hold_trigger_delay_ms,
            swipe_progress_distance: self.swipe_progress_distance,
            binds: binds_view(self.binds@),
        }
    }
}

/// niri's touchscreen defaults. Numbers are IEEE-754 bit patterns:
/// 100, 12, 100, 1, 1, 1.2, 20, 0.5, 90, 15, 500, 200 and 200.
pub open spec fn touchscreen_defaults() -> TouchscreenView {
    TouchscreenView {
        off: false,
        natural_scroll: false,
        map_to_output: None,
        swipe_trigger_distance: Real::Bits(0x4059_0000_0000_0000),
        edge_start_distance: Real::Bits(0x4028_0000_0000_0000),
        pinch_trigger_distance: Real::Bits(0x4059_0000_0000_0000),
        pinch_dominance_ratio: Real::Bits(0x3ff0_0000_0000_0000),
        pinch_sensitivity: Real::Bits(0x3ff0_0000_0000_0000),
        swipe_multi_finger_scale: Real::Bits(0x3ff3_3333_3333_3333),
        rotation_trigger_angle: Real::Bits(0x4034_0000_0000_0000),
        rotation_dominance_ratio: Real::Bits(0x3fe0_0000_0000_0000),
        rotation_progress_angle: Real::Bits(0x4056_8000_0000_0000),
        tap_wobble_threshold: Real::Bits(0x402e_0000_0000_0000),
        tap_timeout_ms: Real::Bits(0x407f_4000_0000_0000),
        tap_hold_trigger_delay_ms: Real::Bits(0x4069_0000_0000_0000),
        swipe_progress_distance: Real::Bits(0x4069_0000_0000_0000),
        binds: Seq::empty(),
    }
}

impl Default for TouchscreenSettings {
    /// Values match niri's current touchscreen defaults.
    fn default() -> (s: Self)
        ensures
            s@ == touchscreen_defaults(),
    {
        let s = TouchscreenSettings {
            off: false,
            natural_scroll: false,
            map_to_output: None,
            swipe_trigger_distance: Real::Bits(0x4059_0000_0000_0000),
            edge_start_distance: Real::Bits(0x4028_0000_0000_0000),
            pinch_trigger_distance: Real::Bits(0x4059_0000_0000_0000),
            pinch_dominance_ratio: Real::Bits(0x3ff0_0000_0000_0000),
            pinch_sensitivity: Real::Bits(0x3ff0_0000_0000_0000),
            swipe_multi_finger_scale: Real::Bits(0x3ff3_3333_3333_3333),
            rotation_trigger_angle: Real::Bits(0x4034_0000_0000_0000),
            rotation_dominance_ratio: Real::Bits(0x3fe0_0000_0000_0000),
            rotation_progress_angle: Real::Bits(0x4056_8000_0000_0000),
            tap_wobble_threshold: Real::Bits(0x402e_0000_0000_0000),
            tap_timeout_ms: Real::Bits(0x407f_4000_0000_0000),
            tap_hold_trigger_delay_ms: Real::Bits(0x4069_0000_0000_0000),
            swipe_progress_distance: Real::Bits(0x4069_0000_0000_0000),
            binds: Vec::new(),
        };
        assert(binds_view(s.binds@) =~= Seq::<BindView>::empty());
        s
    }
}

/// The touchscreen settings a document holds: the defaults, overridden by
/// what `input { touchscreen { ... } }` sets, with the binds of the
/// top-level `binds {}` block. Without a touchscreen block, the defaults.
pub open spec fn spec_parse_touchscreen(doc: Seq<NodeView>) -> TouchscreenView {
    let d = touchscreen_defaults();
    match device_block(doc, "touchscreen"@) {
        None => d,
        Some(ts) => {
            let g = child_block(ts, "gestures"@);
            TouchscreenView {
                off: has_node(ts, "off"@),
                natural_scroll: has_node(ts, "natural-scroll"@),
                map_to_output: spec_read_string_arg(ts, "map-to-output"@),
                swipe_trigger_distance: real_or(g, "swipe-trigger-distance"@, d.swipe_trigger_distance),
                edge_start_distance: real_or(g, "edge-start-distance"@, d.edge_start_distance),
                pinch_trigger_distance: real_or(g, "pinch-trigger-distance"@, d.pinch_trigger_distance),
                pinch_dominance_ratio: real_or(g, "pinch-dominance-ratio"@, d.pinch_dominance_ratio),
                pinch_sensitivity: real_or(g, "pinch-sensitivity"@, d.pinch_sensitivity),
                swipe_multi_finger_scale: real_or(
                    g,
                    "swipe-multi-finger-scale"@,
                    d.swipe_multi_finger_scale,
                ),
                rotation_trigger_angle: real_or(g, "rotation-trigger-angle"@, d.rotation_trigger_angle),
                rotation_dominance_ratio: real_or(
                    g,
                    "rotation-dominance-ratio"@,
                    d.rotation_dominance_ratio,
                ),
                rotation_progress_angle: real_or(
                    g,
                    "rotation-progress-angle"@,
                    d.rotation_progress_angle,
                ),
                tap_wobble_threshold: real_or(g, "tap-wobble-threshold"@, d.tap_wobble_threshold),
                tap_timeout_ms: real_or(g, "tap-timeout-ms"@, d.tap_timeout_ms),
                tap_hold_trigger_delay_ms: real_or(
                    g,
                    "tap-hold-trigger-delay-ms"@,
                    d.tap_hold_trigger_delay_ms,
                ),
                swipe_progress_distance: real_or(
                    g,
                    "swipe-progress-distance"@,
                    d.swipe_progress_distance,
                ),
                binds: document_binds(doc),
            }
        },
    }
}

/// Reads touchscreen settings from a parsed gesture file (its text
/// already brought to KDL v2 booleans).
pub fn parse_touchscreen_settings(doc: &Vec<Node>) -> (s: TouchscreenSettings)
    ensures
        s@ == spec_parse_touchscreen(nodes_view(doc@)),
{
    let mut settings = TouchscreenSettings::default();
    let Some(input) = get_child_block(doc, "input") else {
        return settings;
    };
    let Some(ts) = get_child_block(input, "touchscreen") else {
        return settings;
    };
    settings.off = has_child(ts, "off");
    settings.natural_scroll = has_child(ts, "natural-scroll");
    settings.map_to_output = read_string_arg(ts, "map-to-output");

    let g = get_child_block(ts, "gestures");
    settings.swipe_trigger_distance = read_real_or(g, "swipe-trigger-distance", settings.swipe_trigger_distance);
    settings.edge_start_distance = read_real_or(g, "edge-start-distance", settings.edge_start_distance);
    settings.pinch_trigger_distance = read_real_or(g, "pinch-trigger-distance", settings.pinch_trigger_distance);
    settings.pinch_dominance_ratio = read_real_or(g, "pinch-dominance-ratio", settings.pinch_dominance_ratio);
    settings.pinch_sensitivity = read_real_or(g, "pinch-sensitivity", settings.pinch_sensitivity);
    settings.swipe_multi_finger_scale = read_real_or(g, "swipe-multi-finger-scale", settings.swipe_multi_finger_scale);
    settings.rotation_trigger_angle = read_real_or(g, "rotation-trigger-angle", settings.rotation_trigger_angle);
    settings.rotation_dominance_ratio = read_real_or(g, "rotation-dominance-ratio", settings.rotation_dominance_ratio);
    settings.rotation_progress_angle = read_real_or(g, "rotation-progress-angle", settings.rotation_progress_angle);
    settings.tap_wobble_threshold = read_real_or(g, "tap-wobble-threshold", settings.tap_wobble_threshold);
    settings.tap_timeout_ms = read_real_or(g, "tap-timeout-ms", settings.tap_timeout_ms);
    settings.tap_hold_trigger_delay_ms = read_real_or(g, "tap-hold-trigger-delay-ms", settings.tap_hold_trigger_delay_ms);
    settings.swipe_progress_distance = read_real_or(g, "swipe-progress-distance", settings.swipe_progress_distance);

    // Gesture binds live in a top-level `binds {}` block.
    if let Some(b) = get_child_block(doc, "binds") {
        settings.binds = read_gesture_binds(b);
    }
    settings
}


// ---------------------------------------------------------------------------
// Writing helpers
// ---------------------------------------------------------------------------

/// `n` alone when `present`, else nothing.
#[verifier::opaque]
pub open spec fn optional(present: bool, n: NodeView) -> Seq<NodeView> {
    if present {
        seq![n]
    } else {
        Seq::empty()
    }
}

/// A flag node `name`, present only when `on`.
pub open spec fn flag(on: bool, name: Seq<char>) -> Seq<NodeView> {
    optional(on, bare_node(name))
}

/// Optional string node `name "value"`, the value forced into quotes.
pub open spec fn opt_string_node(value: Option<Seq<char>>, name: Seq<char>) -> Seq<NodeView> {
    optional(value is Some, string_node(name, value.unwrap()))
}

/// `input { <device> { <body> } }`.
pub open spec fn input_block(device: Seq<char>, body: Seq<NodeView>) -> NodeView {
    with_children(bare_node("input"@), seq![with_children(bare_node(device), body)])
}

/// Appends a flag node `name` when `on`.
fn write_flag_if(doc: &mut Vec<Node>, on: bool, name: &str)
    ensures
        nodes_view(final(doc)@) == nodes_view(old(doc)@) + flag(on, name@),
{
    reveal(optional);
    if on {
        write_flag_node(doc, name);
    } else {
        assert(nodes_view(doc@) + flag(on, name@) =~= nodes_view(doc@));
    }
}

/// Wraps `body` as `input { <device> { <body> } }`.
fn make_input_block(device: &str, body: Vec<Node>) -> (n: Node)
    ensures
        n@ == input_block(device@, nodes_view(body@)),
{
    let mut dev = Node::new(device);
    dev.children = Some(body);
    let mut devs: Vec<Node> = Vec::new();
    push_node(&mut devs, dev);
    let mut input = Node::new("input");
    input.children = Some(devs);
    proof {
        crate::document::lemma_nodes_view(devs@);
    }
    assert(nodes_view(devs@) =~= seq![with_children(bare_node(device@), nodes_view(body@))]);
    input
}

// ---------------------------------------------------------------------------
// Writing touchscreen settings
// ---------------------------------------------------------------------------

/// The `gestures {}` block of the touchscreen settings.
pub open spec fn touchscreen_gestures(s: TouchscreenView) -> Seq<NodeView> {
    seq![
        float_node("swipe-trigger-distance"@, s.swipe_trigger_distance),
        float_node("edge-start-distance"@, s.edge_start_distance),
        float_node("pinch-trigger-distance"@, s.pinch_trigger_distance),
        float_node("pinch-dominance-ratio"@, s.pinch_dominance_ratio),
        float_node("pinch-sensitivity"@, s.pinch_sensitivity),
        float_node("swipe-multi-finger-scale"@, s.swipe_multi_finger_scale),
        float_node("rotation-trigger-angle"@, s.rotation_trigger_angle),
        float_node("rotation-dominance-ratio"@, s.rotation_dominance_ratio),
        float_node("rotation-progress-angle"@, s.rotation_progress_angle),
        float_node("tap-wobble-threshold"@, s.tap_wobble_threshold),
        float_node("tap-timeout-ms"@, s.tap_timeout_ms),
        float_node("tap-hold-trigger-delay-ms"@, s.tap_hold_trigger_delay_ms),
        float_node("swipe-progress-distance"@, s.swipe_progress_distance),
    ]
}

/// The body of `input { touchscreen { ... } }`.
pub open spec fn touchscreen_body(s: TouchscreenView) -> Seq<NodeView> {
    flag(s.off, "off"@) + flag(s.natural_scroll, "natural-scroll"@) + opt_string_node(
        s.map_to_output,
        "map-to-output"@,
    ) + seq![with_children(bare_node("gestures"@), touchscreen_gestures(s))]
}

/// The document of the touchscreen gesture file: the touchscreen input
/// block, then the binds block.
pub open spec fn spec_touchscreen_document(s: TouchscreenView) -> Seq<NodeView> {
    seq![input_block("touchscreen"@, touchscreen_body(s))] + binds_block(s.binds)
}

/// The document the touchscreen gesture file holds for these settings.
#[verifier::rlimit(40)]
pub fn touchscreen_document(settings: &TouchscreenSettings) -> (doc: Vec<Node>)
    ensures
        nodes_view(doc@) == spec_touchscreen_document(settings@),
{
    reveal(optional);
    let ghost s = settings@;
    let mut body: Vec<Node> = Vec::new();
    assert(nodes_view(body@) =~= Seq::<NodeView>::empty());
    write_flag_if(&mut body, settings.off, "off");
    write_flag_if(&mut body, settings.natural_scroll, "natural-scroll");
    write_opt_string(&mut body, &settings.map_to_output, "map-to-output");

    let mut g: Vec<Node> = Vec::new();
    write_float_node(&mut g, "swipe-trigger-distance", settings.swipe_trigger_distance);
    write_float_node(&mut g, "edge-start-distance", settings.edge_start_distance);
    write_float_node(&mut g, "pinch-trigger-distance", settings.pinch_trigger_distance);
    write_float_node(&mut g, "pinch-dominance-ratio", settings.pinch_dominance_ratio);
    write_float_node(&mut g, "pinch-sensitivity", settings.pinch_sensitivity);
    write_float_node(&mut g, "swipe-multi-finger-scale", settings.swipe_multi_finger_scale);
    write_float_node(&mut g, "rotation-trigger-angle", settings.rotation_trigger_angle);
    write_float_node(&mut g, "rotation-dominance-ratio", settings.rotation_dominance_ratio);
    write_float_node(&mut g, "rotation-progress-angle", settings.rotation_progress_angle);
    write_float_node(&mut g, "tap-wobble-threshold", settings.tap_wobble_threshold);
    write_float_node(&mut g, "tap-timeout-ms", settings.tap_timeout_ms);
    write_float_node(&mut g, "tap-hold-trigger-delay-ms", settings.tap_hold_trigger_delay_ms);
    write_float_node(&mut g, "swipe-progress-distance", settings.swipe_progress_distance);
    assert(nodes_view(g@) =~= touchscreen_gestures(s));
    let mut gestures = Node::new("gestures");
    gestures.children = Some(g);
    let ghost before_gestures = nodes_view(body@);
    push_node(&mut body, gestures);
    assert(nodes_view(body@) =~= touchscreen_body(s));

    let mut doc: Vec<Node> = Vec::new();
    push_node(&mut doc, make_input_block("touchscreen", body));
    assert(nodes_view(doc@) =~= seq![input_block("touchscreen"@, touchscreen_body(s))]);
    // Gesture binds as a top-level `binds {}` block (niri merges it with
    // the main config).
    write_gesture_binds(&mut doc, settings.binds.as_slice());
    doc
}


// ---------------------------------------------------------------------------
// Touchpad settings
// ---------------------------------------------------------------------------

#[derive(Debug, Clone)]
pub struct TouchpadSettings {
    // Device settings
    pub off: bool,
    pub tap: bool,
    pub dwt: bool,
    pub dwtp: bool,
    pub drag: Option<bool>,
    pub drag_lock: bool,
    pub natural_scroll: bool,
    pub click_method: Option<String>,
    pub accel_speed: Real,
    pub accel_profile: Option<String>,
    pub scroll_method: Option<String>,
    pub scroll_button: Option<u32>,
    pub scroll_button_lock: bool,
    pub tap_button_map: Option<String>,
    pub left_handed: bool,
    pub disabled_on_external_mouse: bool,
    pub middle_emulation: bool,
    pub scroll_factor: Option<Real>,
    // Gesture settings
    pub swipe_trigger_distance: Real,
    // IPC progress scaling
    pub swipe_progress_distance: Real,
    // Dynamic gesture binds (in binds {} block)
    pub binds: Vec<TouchBindEntry>,
}

/// The mathematical content of [`TouchpadSettings`].
pub struct TouchpadView {
    pub off: bool,
    pub tap: bool,
    pub dwt: bool,
    pub dwtp: bool,
    pub drag: Option<bool>,
    pub drag_lock: bool,
    pub natural_scroll: bool,
    pub click_method: Option<Seq<char>>,
    pub accel_speed: Real,
    pub accel_profile: Option<Seq<char>>,
    pub scroll_method: Option<Seq<char>>,
    pub scroll_button: Option<u32>,
    pub scroll_button_lock: bool,
    pub tap_button_map: Option<Seq<char>>,
    pub left_handed: bool,
    pub disabled_on_external_mouse: bool,
    pub middle_emulation: bool,
    pub scroll_factor: Option<Real>,
    pub swipe_trigger_distance: Real,
    pub swipe_progress_distance: Real,
    pub binds: Seq<BindView>,
}

impl View for TouchpadSettings {
    type V = TouchpadView;

    open spec fn view(&self) -> TouchpadView {
        TouchpadView {
            off: self.off,
            tap: self.tap,
            dwt: self.dwt,
            dwtp: self.dwtp,
            drag: self.drag,
            drag_lock: self.drag_lock,
            natural_scroll: self.natural_scroll,
            click_method: opt_string_view(self.click_method),
            accel_speed: self.accel_speed,
            accel_profile: opt_string_view(self.accel_profile),
            scroll_method: opt_string_view(self.scroll_method),
            scroll_button: self.scroll_button,
            scroll_button_lock: self.scroll_button_lock,
            tap_button_map: opt_string_view(self.tap_button_map),
            left_handed: self.left_handed,
            disabled_on_external_mouse: self.disabled_on_external_mouse,
            middle_emulation: self.middle_emulation,
            scroll_factor: self.scroll_factor,
            swipe_trigger_distance: self.swipe_trigger_distance,
            swipe_progress_distance: self.swipe_progress_distance,
            binds: binds_view(self.binds@),
        }
    }
}

/// The touchpad defaults: everything off or unset, acceleration 0, swipe
/// trigger distance 16 and swipe progress distance 40 (as IEEE-754 bit
/// patterns).
pub open spec fn touchpad_defaults() -> TouchpadView {
    TouchpadView {
        off: false,
        tap: false,
        dwt: false,
        dwtp: false,
        drag: None,
        drag_lock: false,
        natural_scroll: false,
        click_method: None,
        accel_speed: Real::Bits(0),
        accel_profile: None,
        scroll_method: None,
        scroll_button: None,
        scroll_button_lock: false,
        tap_button_map: None,
        left_handed: false,
        disabled_on_external_mouse: false,
        middle_emulation: false,
        scroll_factor: None,
        swipe_trigger_distance: Real::Bits(0x4030_0000_0000_0000),
        swipe_progress_distance: Real::Bits(0x4044_0000_0000_0000),
        binds: Seq::empty(),
    }
}

impl Default for TouchpadSettings {
    fn default() -> (s: Self)
        ensures
            s@ == touchpad_defaults(),
    {
        let s = TouchpadSettings {
            off: false,
            tap: false,
            dwt: false,
            dwtp: false,
            drag: None,
            drag_lock: false,
            natural_scroll: false,
            click_method: None,
            accel_speed: Real::Bits(0),
            accel_profile: None,
            scroll_method: None,
            scroll_button: None,
            scroll_button_lock: false,
            tap_button_map: None,
            left_handed: false,
            disabled_on_external_mouse: false,
            middle_emulation: false,
            scroll_factor: None,
            swipe_trigger_distance: Real::Bits(0x4030_0000_0000_0000),
            swipe_progress_distance: Real::Bits(0x4044_0000_0000_0000),
            binds: Vec::new(),
        };
        assert(binds_view(s.binds@) =~= Seq::<BindView>::empty());
        s
    }
}

/// The touchpad settings a gesture file holds: the device block comes from
/// `doc`, the `binds {}` block from `binds_doc` (the file parsed as it is,
/// and parsed after its boolean property values are brought to KDL v2).
/// Without a touchpad block, the defaults.
pub open spec fn spec_parse_touchpad(doc: Seq<NodeView>, binds_doc: Seq<NodeView>) -> TouchpadView {
    let d = touchpad_defaults();
    match device_block(doc, "touchpad"@) {
        None => d,
        Some(tp) => {
            let g = child_block(tp, "gestures"@);
            TouchpadView {
                off: has_node(tp, "off"@),
                tap: has_node(tp, "tap"@),
                dwt: has_node(tp, "dwt"@),
                dwtp: has_node(tp, "dwtp"@),
                drag: spec_read_optional_bool(tp, "drag"@),
                drag_lock: has_node(tp, "drag-lock"@),
                natural_scroll: has_node(tp, "natural-scroll"@),
                click_method: spec_read_string_arg(tp, "click-method"@),
                accel_speed: match spec_read_float_arg(tp, "accel-speed"@) {
                    Some(v) => v,
                    None => Real::Bits(0),
                },
                accel_profile: spec_read_string_arg(tp, "accel-profile"@),
                scroll_method: spec_read_string_arg(tp, "scroll-method"@),
                scroll_button: match spec_read_int_arg(tp, "scroll-button"@) {
                    Some(v) => Some(v as u32),
                    None => None,
                },
                scroll_button_lock: has_node(tp, "scroll-button-lock"@),
                tap_button_map: spec_read_string_arg(tp, "tap-button-map"@),
                left_handed: has_node(tp, "left-handed"@),
                disabled_on_external_mouse: has_node(tp, "disabled-on-external-mouse"@),
                middle_emulation: has_node(tp, "middle-emulation"@),
                scroll_factor: spec_read_float_arg(tp, "scroll-factor"@),
                swipe_trigger_distance: real_or(g, "swipe-trigger-distance"@, d.swipe_trigger_distance),
                swipe_progress_distance: real_or(
                    g,
                    "swipe-progress-distance"@,
                    d.swipe_progress_distance,
                ),
                binds: document_binds(binds_doc),
            }
        },
    }
}

/// Reads touchpad settings: the device block from `doc`, the binds from
/// `binds_doc`.
#[verifier::rlimit(40)]
pub fn parse_touchpad_settings(doc: &Vec<Node>, binds_doc: &Vec<Node>) -> (s: TouchpadSettings)
    ensures
        s@ == spec_parse_touchpad(nodes_view(doc@), nodes_view(binds_doc@)),
{
    let mut settings = TouchpadSettings::default();
    let Some(input) = get_child_block(doc, "input") else {
        return settings;
    };
    let Some(tp) = get_child_block(input, "touchpad") else {
        return settings;
    };

    // Device settings
    settings.off = has_child(tp, "off");
    settings.tap = has_child(tp, "tap");
    settings.dwt = has_child(tp, "dwt");
    settings.dwtp = has_child(tp, "dwtp");
    settings.drag = read_optional_bool(tp, "drag");
    settings.drag_lock = has_child(tp, "drag-lock");
    settings.natural_scroll = has_child(tp, "natural-scroll");
    settings.click_method = read_string_arg(tp, "click-method");
    settings.accel_speed = match read_float_arg(tp, "accel-speed") {
        Some(v) => v,
        None => Real::Bits(0),
    };
    settings.accel_profile = read_string_arg(tp, "accel-profile");
    settings.scroll_method = read_string_arg(tp, "scroll-method");
    settings.scroll_button = match read_int_arg(tp, "scroll-button") {
        Some(v) => Some(v as u32),
        None => None,
    };
    settings.scroll_button_lock = has_child(tp, "scroll-button-lock");
    settings.tap_button_map = read_string_arg(tp, "tap-button-map");
    settings.left_handed = has_child(tp, "left-handed");
    settings.disabled_on_external_mouse = has_child(tp, "disabled-on-external-mouse");
    settings.middle_emulation = has_child(tp, "middle-emulation");
    settings.scroll_factor = read_float_arg(tp, "scroll-factor");

    // Gesture tuning
    let g = get_child_block(tp, "gestures");
    settings.swipe_trigger_distance = read_real_or(g, "swipe-trigger-distance", settings.swipe_trigger_distance);
    settings.swipe_progress_distance = read_real_or(g, "swipe-progress-distance", settings.swipe_progress_distance);

    // Gesture binds from the top-level binds {} block
    if let Some(b) = get_child_block(binds_doc, "binds") {
        settings.binds = read_gesture_binds(b);
    }
    settings
}


/// Optional float node `name value`.
pub open spec fn opt_float_node(value: Option<Real>, name: Seq<char>) -> Seq<NodeView> {
    optional(value is Some, float_node(name, value.unwrap()))
}

/// Optional node `name value` with a boolean argument in KDL v1 spelling.
pub open spec fn opt_bool_node(value: Option<bool>, name: Seq<char>) -> Seq<NodeView> {
    optional(value is Some, v1_bool_node(name, value.unwrap()))
}

/// Optional node `name value` with an integer argument.
pub open spec fn opt_int_node(value: Option<u32>, name: Seq<char>) -> Seq<NodeView> {
    optional(value is Some, value_node(name, ValueView::Integer(value.unwrap() as i128)))
}

/// A node `name arg` with one plainly printed argument.
pub open spec fn value_node(name: Seq<char>, value: ValueView) -> NodeView {
    NodeView {
        entries: seq![EntryView { name: None, value: value, style: Style::Plain }],
        ..bare_node(name)
    }
}

/// A node `name value` whose single argument is the boolean `value`,
/// printed in KDL v1 spelling (`true` or `false`).
pub open spec fn v1_bool_node(name: Seq<char>, value: bool) -> NodeView {
    NodeView {
        entries: seq![EntryView { name: None, value: ValueView::Bool(value), style: Style::V1Bool }],
        ..bare_node(name)
    }
}

/// The device switches of a touchpad block, up to the scroll method.
pub open spec fn touchpad_switches(s: TouchpadView) -> Seq<NodeView> {
    flag(s.off, "off"@) + flag(s.tap, "tap"@) + flag(s.dwt, "dwt"@) + flag(s.dwtp, "dwtp"@) + opt_bool_node(
        s.drag,
        "drag"@,
    ) + flag(s.drag_lock, "drag-lock"@) + flag(s.natural_scroll, "natural-scroll"@)
        + opt_string_node(s.click_method, "click-method"@) + opt_float_node(
        if crate::document::spec_is_zero(s.accel_speed) {
            None
        } else {
            Some(s.accel_speed)
        },
        "accel-speed"@,
    ) + opt_string_node(s.accel_profile, "accel-profile"@) + opt_string_node(
        s.scroll_method,
        "scroll-method"@,
    )
}

/// The rest of a touchpad block: scroll button onwards, then gestures.
pub open spec fn touchpad_rest(s: TouchpadView) -> Seq<NodeView> {
    opt_int_node(s.scroll_button, "scroll-button"@) + flag(s.scroll_button_lock, "scroll-button-lock"@) + opt_string_node(
        s.tap_button_map,
        "tap-button-map"@,
    ) + flag(s.left_handed, "left-handed"@) + flag(
        s.disabled_on_external_mouse,
        "disabled-on-external-mouse"@,
    ) + flag(s.middle_emulation, "middle-emulation"@) + opt_float_node(
        s.scroll_factor,
        "scroll-factor"@,
    ) + seq![
        with_children(
            bare_node("gestures"@),
            seq![
                float_node("swipe-trigger-distance"@, s.swipe_trigger_distance),
                float_node("swipe-progress-distance"@, s.swipe_progress_distance),
            ],
        ),
    ]
}

/// The body of `input { touchpad { ... } }`.
pub open spec fn touchpad_body(s: TouchpadView) -> Seq<NodeView> {
    touchpad_switches(s) + touchpad_rest(s)
}

/// The document of the touchpad gesture file: the touchpad input block,
/// then the binds block.
pub open spec fn spec_touchpad_document(s: TouchpadView) -> Seq<NodeView> {
    seq![input_block("touchpad"@, touchpad_body(s))] + binds_block(s.binds)
}

/// Appends `name "value"` when a value is given.
fn write_opt_string(doc: &mut Vec<Node>, value: &Option<String>, name: &str)
    ensures
        nodes_view(final(doc)@) == nodes_view(old(doc)@) + opt_string_node(
            opt_string_view(*value),
            name@,
        ),
{
    reveal(optional);
    match value {
        Some(v) => write_string_node(doc, name, v.as_str()),
        None => {
            assert(nodes_view(doc@) + opt_string_node(opt_string_view(*value), name@) =~= nodes_view(
                doc@,
            ));
        },
    }
}

/// Appends `name value` when a number is given.
fn write_opt_float(doc: &mut Vec<Node>, value: Option<Real>, name: &str)
    ensures
        nodes_view(final(doc)@) == nodes_view(old(doc)@) + opt_float_node(value, name@),
{
    reveal(optional);
    match value {
        Some(v) => write_float_node(doc, name, v),
        None => {
            assert(nodes_view(doc@) + opt_float_node(value, name@) =~= nodes_view(doc@));
        },
    }
}

/// Appends `name arg` with one plainly printed argument.
fn write_value_node(doc: &mut Vec<Node>, name: &str, value: Value)
    ensures
        nodes_view(final(doc)@) == nodes_view(old(doc)@).push(value_node(name@, value@)),
{
    let mut node = Node::new(name);
    let ghost v = value@;
    node.push(Entry { name: None, value: value, style: Style::Plain });
    assert(node@ == value_node(name@, v));
    push_node(doc, node);
}

/// Writes the device switches of a touchpad block.
fn write_touchpad_switches(settings: &TouchpadSettings) -> (body: Vec<Node>)
    ensures
        nodes_view(body@) == touchpad_switches(settings@),
{
    reveal(optional);
    let ghost s = settings@;
    let mut body: Vec<Node> = Vec::new();
    assert(nodes_view(body@) =~= Seq::<NodeView>::empty());
    write_flag_if(&mut body, settings.off, "off");
    assert(nodes_view(body@) =~= flag(s.off, "off"@));
    write_flag_if(&mut body, settings.tap, "tap");
    write_flag_if(&mut body, settings.dwt, "dwt");
    write_flag_if(&mut body, settings.dwtp, "dwtp");
    let ghost b0 = nodes_view(body@);
    if let Some(drag) = settings.drag {
        let mut node = Node::new("drag");
        node.push(Entry { name: None, value: Value::Bool(drag), style: Style::V1Bool });
        assert(node@ == v1_bool_node("drag"@, drag));
        push_node(&mut body, node);
    }
    assert(nodes_view(body@) =~= b0 + opt_bool_node(s.drag, "drag"@));
    write_flag_if(&mut body, settings.drag_lock, "drag-lock");
    write_flag_if(&mut body, settings.natural_scroll, "natural-scroll");
    write_opt_string(&mut body, &settings.click_method, "click-method");
    let accel = if settings.accel_speed.is_zero() {
        None
    } else {
        Some(settings.accel_speed)
    };
    write_opt_float(&mut body, accel, "accel-speed");
    write_opt_string(&mut body, &settings.accel_profile, "accel-profile");
    write_opt_string(&mut body, &settings.scroll_method, "scroll-method");
    body
}

/// Writes the rest of a touchpad block after `body`.
fn write_touchpad_rest(body: &mut Vec<Node>, settings: &TouchpadSettings)
    ensures
        nodes_view(final(body)@) == nodes_view(old(body)@) + touchpad_rest(settings@),
{
    reveal(optional);
    let ghost s = settings@;
    let ghost start = nodes_view(body@);
    let mut rest: Vec<Node> = Vec::new();
    assert(nodes_view(rest@) =~= Seq::<NodeView>::empty());
    if let Some(button) = settings.scroll_button {
        write_value_node(&mut rest, "scroll-button", Value::Integer(button as i128));
    }
    assert(nodes_view(rest@) =~= opt_int_node(s.scroll_button, "scroll-button"@));
    write_flag_if(&mut rest, settings.scroll_button_lock, "scroll-button-lock");
    write_opt_string(&mut rest, &settings.tap_button_map, "tap-button-map");
    write_flag_if(&mut rest, settings.left_handed, "left-handed");
    write_flag_if(&mut rest, settings.disabled_on_external_mouse, "disabled-on-external-mouse");
    write_flag_if(&mut rest, settings.middle_emulation, "middle-emulation");
    write_opt_float(&mut rest, settings.scroll_factor, "scroll-factor");

    // Gesture settings
    let mut g: Vec<Node> = Vec::new();
    assert(nodes_view(g@) =~= Seq::<NodeView>::empty());
    write_float_node(&mut g, "swipe-trigger-distance", settings.swipe_trigger_distance);
    write_float_node(&mut g, "swipe-progress-distance", settings.swipe_progress_distance);
    assert(nodes_view(g@) =~= seq![
        float_node("swipe-trigger-distance"@, s.swipe_trigger_distance),
        float_node("swipe-progress-distance"@, s.swipe_progress_distance),
    ]);
    let mut gestures = Node::new("gestures");
    gestures.children = Some(g);
    push_node(&mut rest, gestures);
    assert(nodes_view(rest@) =~= touchpad_rest(s));
    append_nodes(body, rest);
}

/// Appends the nodes of `more` to `doc`.
fn append_nodes(doc: &mut Vec<Node>, more: Vec<Node>)
    ensures
        nodes_view(final(doc)@) == nodes_view(old(doc)@) + nodes_view(more@),
{
    proof {
        crate::document::lemma_nodes_view(doc@);
        crate::document::lemma_nodes_view(more@);
    }
    let ghost before = doc@;
    let ghost added = more@;
    let mut more = more;
    doc.append(&mut more);
    proof {
        crate::document::lemma_nodes_view(doc@);
        assert(doc@ == before + added);
    }
    assert(nodes_view(doc@) =~= nodes_view(before) + nodes_view(added));
}

/// The document the touchpad gesture file holds for these settings.
pub fn touchpad_document(settings: &TouchpadSettings) -> (doc: Vec<Node>)
    ensures
        nodes_view(doc@) == spec_touchpad_document(settings@),
{
    let ghost s = settings@;
    let mut body = write_touchpad_switches(settings);
    write_touchpad_rest(&mut body, settings);
    let mut doc: Vec<Node> = Vec::new();
    push_node(&mut doc, make_input_block("touchpad", body));
    assert(nodes_view(doc@) =~= seq![input_block("touchpad"@, touchpad_body(s))]);
    // Gesture binds as a top-level binds {} block
    write_gesture_binds(&mut doc, settings.binds.as_slice());
    doc
}

// ---------------------------------------------------------------------------
// Reading the gesture files' text
// ---------------------------------------------------------------------------

/// Reads touchscreen settings from the text of the touchscreen gesture
/// file: the text is brought to KDL v2 booleans and parsed.
pub fn parse_touchscreen_text(content: &str) -> (s: TouchscreenSettings)
    ensures
        s@ == spec_parse_touchscreen(kdl_document(spec_v1_to_v2(content@))),
{
    let v2 = kdl_v1_to_v2(content);
    let doc = parse_document(v2.as_str());
    parse_touchscreen_settings(&doc)
}

/// Reads touchpad settings from the text of the touchpad gesture file: the
/// device block from the text as it is, the binds from the text with its
/// boolean property values brought to KDL v2. The file holds KDL v1
/// booleans (`drag true`), which the parser reads by its KDL v1 fallback.
pub fn parse_touchpad_text(content: &str) -> (s: TouchpadSettings)
    ensures
        s@ == spec_parse_touchpad(kdl_document(content@), kdl_document(spec_v1_to_v2(content@))),
{
    let doc = parse_document(content);
    let v2 = kdl_v1_to_v2(content);
    let binds_doc = parse_document(v2.as_str());
    parse_touchpad_settings(&doc, &binds_doc)
}

} // verus!
