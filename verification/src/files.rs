//! The gesture files: where they live, and the include lines that make
//! niri read them.

use vstd::prelude::*;
use crate::text::{occurs_in, contains_str, chars_of};

verus! {

broadcast use vstd::string::group_string_axioms;

/// The touchscreen gesture file's name.
pub const TOUCHSCREEN_GESTURES_FILE: &'static str = "touchscreen-gestures.kdl";

/// The touchpad gesture file's name.
pub const TOUCHPAD_GESTURES_FILE: &'static str = "touchpad-gestures.kdl";

/// The lines appended to the main config so that niri reads both gesture
/// files.
pub const INCLUDE_BLOCK: &'static str = "// Includes override existing sections.\n// Settings in these files replace the corresponding blocks in this config.\n// Gesture binds in these files merge into the main binds {} block.\ninclude \"touchscreen-gestures.kdl\" optional=true\ninclude \"touchpad-gestures.kdl\" optional=true\n";

// ---------------------------------------------------------------------------
// Paths
// ---------------------------------------------------------------------------

/// `file` inside directory `dir`: a `/` goes between them unless `dir` is
/// empty or already ends with one (`Path::join` with a relative name).
pub open spec fn spec_join_path(dir: Seq<char>, file: Seq<char>) -> Seq<char> {
    if dir.len() == 0 || dir.last() == '/' {
        dir + file
    } else {
        dir + "/"@ + file
    }
}

/// `file` inside directory `dir`.
pub fn join_path(dir: &str, file: &str) -> (r: String)
    ensures
        r@ == spec_join_path(dir@, file@),
{
    let v = chars_of(dir);
    let mut r = String::from_str(dir);
    if v.len() > 0 && v[v.len() - 1] != '/' {
        r.append("/");
    }
    r.append(file);
    r
}

/// The touchscreen gesture file inside the config directory.
pub fn touchscreen_config_path(config_dir: &str) -> (r: String)
    ensures
        r@ == spec_join_path(config_dir@, TOUCHSCREEN_GESTURES_FILE@),
{
    join_path(config_dir, TOUCHSCREEN_GESTURES_FILE)
}

/// The touchpad gesture file inside the config directory.
pub fn touchpad_config_path(config_dir: &str) -> (r: String)
    ensures
        r@ == spec_join_path(config_dir@, TOUCHPAD_GESTURES_FILE@),
{
    join_path(config_dir, TOUCHPAD_GESTURES_FILE)
}

/// The config directory niri reads: the directory of `$NIRI_CONFIG` when
/// that is set and names one, else `$XDG_CONFIG_HOME/niri` when that
/// directory exists, else `.config/niri` under the home directory.
pub open spec fn spec_config_dir(
    niri_config_parent: Option<Seq<char>>,
    xdg_niri: Option<Seq<char>>,
    xdg_niri_exists: bool,
    home: Seq<char>,
) -> Seq<char> {
    match niri_config_parent {
        Some(p) => p,
        None => match xdg_niri {
            Some(x) if xdg_niri_exists => x,
            _ => spec_join_path(home, ".config/niri"@),
        },
    }
}

/// The config directory, from the directory of `$NIRI_CONFIG` (if set and
/// it has one), the candidate `$XDG_CONFIG_HOME/niri` (if that variable is
/// set) and whether it exists, and the home directory.
pub fn config_dir_from(
    niri_config_parent: Option<&str>,
    xdg_niri: Option<&str>,
    xdg_niri_exists: bool,
    home: &str,
) -> (r: String)
    ensures
        r@ == spec_config_dir(
            match niri_config_parent {
                Some(p) => Some(p@),
                None => None,
            },
            match xdg_niri {
                Some(x) => Some(x@),
                None => None,
            },
            xdg_niri_exists,
            home@,
        ),
{
    if let Some(p) = niri_config_parent {
        return String::from_str(p);
    }
    if let Some(x) = xdg_niri {
        if xdg_niri_exists {
            return String::from_str(x);
        }
    }
    join_path(home, ".config/niri")
}

/// The candidate config directory under `$XDG_CONFIG_HOME`.
pub fn xdg_niri_dir(xdg_config_home: &str) -> (r: String)
    ensures
        r@ == spec_join_path(xdg_config_home@, "niri"@),
{
    join_path(xdg_config_home, "niri")
}

/// The main config file: `$NIRI_CONFIG` when set, else `config.kdl` in the
/// config directory.
pub fn main_config_path_from(niri_config: Option<&str>, config_dir: &str) -> (r: String)
    ensures
        r@ == match niri_config {
            Some(p) => p@,
            None => spec_join_path(config_dir@, "config.kdl"@),
        },
{
    match niri_config {
        Some(p) => String::from_str(p),
        None => join_path(config_dir, "config.kdl"),
    }
}

// ---------------------------------------------------------------------------
// Include lines
// ---------------------------------------------------------------------------

/// The main config already includes the touchscreen gesture file (under
/// its current or its earlier name).
pub open spec fn includes_touchscreen(content: Seq<char>) -> bool {
    occurs_in("touchscreen-gestures.kdl"@, content) || occurs_in("touch-gestures.kdl"@, content)
}

/// The main config already includes the touchpad gesture file.
pub open spec fn includes_touchpad(content: Seq<char>) -> bool {
    occurs_in("touchpad-gestures.kdl"@, content)
}

/// The main config with the include block appended after a blank line.
pub open spec fn spec_with_includes(content: Seq<char>) -> Seq<char> {
    if content.len() > 0 && content.last() == '\n' {
        content + "\n"@ + INCLUDE_BLOCK@
    } else {
        content + "\n\n"@ + INCLUDE_BLOCK@
    }
}

/// What the main config should become: `None` when it already includes
/// both gesture files, else the config with the whole include block
/// appended.
pub fn include_update(content: &str) -> (r: Option<String>)
    ensures
        match r {
            None => includes_touchscreen(content@) && includes_touchpad(content@),
            Some(c) => !(includes_touchscreen(content@) && includes_touchpad(content@)) && c@
                == spec_with_includes(content@),
        },
{
    let has_touchscreen = contains_str(content, "touchscreen-gestures.kdl") || contains_str(
        content,
        "touch-gestures.kdl",
    );
    let has_touchpad = contains_str(content, "touchpad-gestures.kdl");
    if has_touchscreen && has_touchpad {
        return None;
    }
    let v = chars_of(content);
    let mut out = String::from_str(content);
    if v.len() > 0 && v[v.len() - 1] == '\n' {
        out.append("\n");
    } else {
        out.append("\n\n");
    }
    out.append(INCLUDE_BLOCK);
    Some(out)
}

} // verus!
