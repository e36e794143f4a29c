use niri_touch_settings::menus::{
    accel_profile_options, click_method_options, menu_index, menu_value, scroll_method_options,
    tap_button_map_options,
};

#[test]
fn menu_tables() {
    assert_eq!(scroll_method_options(), ["two-finger", "edge", "on-button-down", "no-scroll"]);
    assert_eq!(accel_profile_options(), ["adaptive", "flat"]);
    assert_eq!(click_method_options(), ["clickfinger", "button-areas"]);
    assert_eq!(tap_button_map_options(), ["left-right-middle", "left-middle-right"]);
}

#[test]
fn menu_entry_of_a_setting() {
    let m = scroll_method_options();
    assert_eq!(menu_index(&m, None), 0);
    assert_eq!(menu_index(&m, Some("two-finger")), 1);
    assert_eq!(menu_index(&m, Some("no-scroll")), 4);
    assert_eq!(menu_index(&m, Some("sideways")), 0);
    assert_eq!(menu_index(&accel_profile_options(), Some("flat")), 2);
}

#[test]
fn setting_of_a_menu_entry() {
    let m = click_method_options();
    assert_eq!(menu_value(&m, 0), None);
    assert_eq!(menu_value(&m, 1).as_deref(), Some("clickfinger"));
    assert_eq!(menu_value(&m, 2).as_deref(), Some("button-areas"));
    assert_eq!(menu_value(&m, 3), None);
    assert_eq!(menu_value(&m, u32::MAX), None);
    let t = tap_button_map_options();
    for i in 0..4u32 {
        assert_eq!(menu_index(&t, menu_value(&t, i).as_deref()), if i <= 2 { i } else { 0 });
    }
}
