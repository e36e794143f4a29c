# niri_touch_settings

A preferences tool for the touchscreen and touchpad gesture settings of the
niri Wayland compositor. It writes two KDL files that the main niri config
includes (`touchscreen-gestures.kdl`, `touchpad-gestures.kdl`), each holding
an `input { <device> { ... } }` block and a `binds {}` block of gesture
binds in property form (`TouchSwipe fingers=3 direction="up" { ... }`).

## Layout

- `src/` — the verified library (Verus):
  - `text.rs`: string helpers, the KDL v1/v2 boolean rewrite, decimals;
  - `document.rs`: the KDL document model (nodes, entries, values), its
    readers and writers, and parsing KDL text into it with the `kdl` crate;
  - `trigger.rs`: gesture triggers, their keywords, keys, labels, and the
    property form they are written in and read from;
  - `binds.rs`: reading and writing the `binds {}` block;
  - `settings.rs`: touchscreen and touchpad settings, their defaults, and the
    documents of the two gesture files;
  - `editing.rs`: what the settings pages decide when binds are edited,
    added or deleted, and how actions are labelled;
  - `files.rs`: config paths and the include lines of the main config;
  - `menus.rs`: the touchpad device menus and the keywords they set;
  - `laws.rs`: properties relating several of the above (round trips of
    keywords, trigger nodes, binds and settings; key uniqueness under edits;
    the include update settling; the boolean rewrites undoing each other).
- `app/` — the GTK / libadwaita program: windows and widgets, file and
  environment access, printing documents with the `kdl` crate (floats
  rounded to two decimals), and reloading niri.
- `tests/` — tests of the library on concrete values.
