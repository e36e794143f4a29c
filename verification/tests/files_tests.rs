use niri_touch_settings::files::{
    config_dir_from, include_update, join_path, main_config_path_from, touchpad_config_path,
    touchscreen_config_path, xdg_niri_dir, INCLUDE_BLOCK, TOUCHPAD_GESTURES_FILE,
    TOUCHSCREEN_GESTURES_FILE,
};
use niri_touch_settings::text::{contains_str, kdl_v1_to_v2, kdl_v2_to_v1, str_eq};

#[test]
fn gesture_file_paths() {
    assert_eq!(TOUCHSCREEN_GESTURES_FILE, "touchscreen-gestures.kdl");
    assert_eq!(TOUCHPAD_GESTURES_FILE, "touchpad-gestures.kdl");
    assert_eq!(
        touchscreen_config_path("/home/u/.config/niri"),
        "/home/u/.config/niri/touchscreen-gestures.kdl"
    );
    assert_eq!(touchpad_config_path("/etc/niri/"), "/etc/niri/touchpad-gestures.kdl");
    assert_eq!(join_path("", "a.kdl"), "a.kdl");
    assert_eq!(join_path("/", "a.kdl"), "/a.kdl");
}

#[test]
fn include_block_text() {
    assert!(INCLUDE_BLOCK.starts_with("// Includes override existing sections.\n"));
    assert!(INCLUDE_BLOCK.contains("include \"touchscreen-gestures.kdl\" optional=true\n"));
    assert!(INCLUDE_BLOCK.ends_with("include \"touchpad-gestures.kdl\" optional=true\n"));
}

#[test]
fn include_update_appends_after_a_blank_line() {
    assert_eq!(include_update("input {}\n"), Some(format!("input {{}}\n\n{INCLUDE_BLOCK}")));
    assert_eq!(include_update("input {}"), Some(format!("input {{}}\n\n{INCLUDE_BLOCK}")));
    assert_eq!(include_update(""), Some(format!("\n\n{INCLUDE_BLOCK}")));
}

#[test]
fn include_update_leaves_a_complete_config() {
    let both = "include \"touchscreen-gestures.kdl\"\ninclude \"touchpad-gestures.kdl\"\n";
    assert_eq!(include_update(both), None);
    // the earlier touchscreen file name counts too
    let old_name = "include \"touch-gestures.kdl\"\ninclude \"touchpad-gestures.kdl\"\n";
    assert_eq!(include_update(old_name), None);
    // one of the two is not enough: the whole block is appended
    let one = "include \"touchpad-gestures.kdl\"\n";
    assert_eq!(include_update(one), Some(format!("{one}\n{INCLUDE_BLOCK}")));
}

#[test]
fn include_update_settles() {
    for c in ["", "x", "binds {}\n", "include \"touch-gestures.kdl\""] {
        let once = include_update(c).unwrap();
        assert_eq!(include_update(&once), None);
    }
}

#[test]
fn v1_v2_booleans() {
    assert_eq!(kdl_v1_to_v2("natural-scroll=true tap=false"), "natural-scroll=#true tap=#false");
    assert_eq!(kdl_v2_to_v1("natural-scroll=#true tap=#false"), "natural-scroll=true tap=false");
    // property values only: arguments are left alone
    assert_eq!(kdl_v1_to_v2("drag true"), "drag true");
    assert_eq!(
        kdl_v2_to_v1("a natural-scroll=#true x=#false; drag #true"),
        "a natural-scroll=true x=false; drag #true"
    );
    // already in the other spelling: left alone
    assert_eq!(kdl_v1_to_v2("a=#true"), "a=#true");
    assert_eq!(kdl_v2_to_v1("a=true"), "a=true");
    assert_eq!(kdl_v1_to_v2("a=trueish"), "a=#trueish");
    assert_eq!(kdl_v1_to_v2("=="), "==");
    assert_eq!(kdl_v2_to_v1("=#"), "=#");
}

#[test]
fn v1_form_keeps_no_v2_property_boolean() {
    let printed = "binds {\n    TouchpadSwipe fingers=3 direction=\"up\" natural-scroll=#true {\n        noop\n    }\n}\n";
    let out = kdl_v2_to_v1(printed);
    assert!(!out.contains("=#true") && !out.contains("=#false"));
    assert!(out.contains("natural-scroll=true {"));
}

#[test]
fn v1_v2_round_trip() {
    for s in [
        "",
        "input { touchpad { tap; drag false; } }",
        "TouchSwipe fingers=3 natural-scroll=true { spawn \"a=false\"; }",
        "x=true=false==true",
        "a=#1",
        "a #true",
        "=",
        "=t",
        "=fals",
    ] {
        assert_eq!(kdl_v2_to_v1(&kdl_v1_to_v2(s)), s);
        let v2 = kdl_v1_to_v2(s);
        assert!(!v2.contains("=true") && !v2.contains("=false"));
    }
    for s in ["drag #true", "a=#false b=#true", "x #false y"] {
        assert_eq!(kdl_v1_to_v2(&kdl_v2_to_v1(s)), s);
    }
    // text that already spells a v2 property value does not come back
    assert_eq!(kdl_v2_to_v1(&kdl_v1_to_v2("a=#true")), "a=true");
}

#[test]
fn string_helpers() {
    assert!(str_eq("abc", "abc"));
    assert!(!str_eq("abc", "abd"));
    assert!(!str_eq("ab", "abc"));
    assert!(contains_str("hello world", "o w"));
    assert!(contains_str("hello", ""));
    assert!(!contains_str("hello", "low"));
}

#[test]
fn config_directory_choice() {
    // $NIRI_CONFIG's directory wins
    assert_eq!(config_dir_from(Some("/cfg"), Some("/x/niri"), true, "/home/u"), "/cfg");
    // then an existing $XDG_CONFIG_HOME/niri
    assert_eq!(config_dir_from(None, Some("/x/niri"), true, "/home/u"), "/x/niri");
    // else the home directory's
    assert_eq!(config_dir_from(None, Some("/x/niri"), false, "/home/u"), "/home/u/.config/niri");
    assert_eq!(config_dir_from(None, None, false, "/home/u/"), "/home/u/.config/niri");
    assert_eq!(xdg_niri_dir("/x"), "/x/niri");
}

#[test]
fn main_config_file() {
    assert_eq!(main_config_path_from(Some("/tmp/my.kdl"), "/ignored"), "/tmp/my.kdl");
    assert_eq!(main_config_path_from(None, "/home/u/.config/niri"), "/home/u/.config/niri/config.kdl");
}
