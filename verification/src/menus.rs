//! The touchpad device menus: which menu entry shows a setting's keyword,
//! and which keyword a menu entry sets. Entry 0 of each menu is "Default"
//! (no keyword written); entry `i + 1` is keyword `i` of the menu's table.

use vstd::prelude::*;
use crate::text::str_eq;

verus! {

broadcast use vstd::string::group_string_axioms;

/// The position of the first keyword of `options` equal to `value`.
pub open spec fn option_position(options: Seq<&str>, value: Seq<char>) -> Option<int>
    decreases options.len(),
{
    if options.len() == 0 {
        None
    } else if options[0]@ == value {
        Some(0)
    } else {
        match option_position(options.drop_first(), value) {
            Some(i) => Some(i + 1),
            None => None,
        }
    }
}

/// The menu entry that shows `value`: 0 ("Default") for no keyword or an
/// unknown one.
pub open spec fn spec_menu_index(options: Seq<&str>, value: Option<Seq<char>>) -> int {
    match value {
        None => 0,
        Some(v) => match option_position(options, v) {
            Some(i) => i + 1,
            None => 0,
        },
    }
}

/// The menu entry that shows `value`.
pub fn menu_index(options: &[&str], value: Option<&str>) -> (r: u32)
    requires
        options.len() < u32::MAX,
    ensures
        r as int == spec_menu_index(
            options@,
            match value {
                Some(v) => Some(v@),
                None => None,
            },
        ),
{
    let v = match value {
        Some(v) => v,
        None => return 0,
    };
    let mut i: usize = 0;
    assert(options@.skip(0) =~= options@);
    while i < options.len()
        invariant
            i <= options.len(),
            options.len() < u32::MAX,
            value == Some(v),
            spec_menu_index(options@, Some(v@)) == match option_position(options@.skip(i as int), v@) {
                Some(k) => k + i + 1,
                None => 0,
            },
        decreases options.len() - i,
    {
        assert(options@.skip(i as int).drop_first() =~= options@.skip(i + 1));
        assert(options@.skip(i as int)[0] == options@[i as int]);
        if str_eq(options[i], v) {
            assert(options@.skip(i as int)[0]@ == v@);
            assert(option_position(options@.skip(i as int), v@) == Some(0int));
            assert(spec_menu_index(options@, Some(v@)) == i + 1);
            return (i + 1) as u32;
        }
        i = i + 1;
    }
    0
}

/// The keyword menu entry `index` sets: none for entry 0 ("Default") or an
/// entry past the end.
pub fn menu_value(options: &[&str], index: u32) -> (r: Option<String>)
    ensures
        match r {
            Some(s) => 1 <= index <= options.len() && s@ == options@[index - 1]@,
            None => index == 0 || index > options.len(),
        },
{
    if index == 0 || index as usize > options.len() {
        None
    } else {
        Some(String::from_str(options[(index - 1) as usize]))
    }
}

/// The scroll-method keywords, in menu order after "Default".
pub fn scroll_method_options() -> (r: [&'static str; 4])
    ensures
        r[0]@ == "two-finger"@,
        r[1]@ == "edge"@,
        r[2]@ == "on-button-down"@,
        r[3]@ == "no-scroll"@,
{
    ["two-finger", "edge", "on-button-down", "no-scroll"]
}

/// The acceleration-profile keywords, in menu order after "Default".
pub fn accel_profile_options() -> (r: [&'static str; 2])
    ensures
        r[0]@ == "adaptive"@,
        r[1]@ == "flat"@,
{
    ["adaptive", "flat"]
}

/// The click-method keywords, in menu order after "Default".
pub fn click_method_options() -> (r: [&'static str; 2])
    ensures
        r[0]@ == "clickfinger"@,
        r[1]@ == "button-areas"@,
{
    ["clickfinger", "button-areas"]
}

/// The tap-button-map keywords, in menu order after "Default".
pub fn tap_button_map_options() -> (r: [&'static str; 2])
    ensures
        r[0]@ == "left-right-middle"@,
        r[1]@ == "left-middle-right"@,
{
    ["left-right-middle", "left-middle-right"]
}

} // verus!
