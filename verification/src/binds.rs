//! Gesture binds: the `binds {}` block of a gesture file, and the list of
//! binds the settings pages edit.

use vstd::prelude::*;
use crate::text::str_eq;
use crate::document::{
    Node, NodeView, Entry, EntryView, Value, ValueView, Style, Real, nodes_view, node_view,
    lemma_nodes_view, push_node, bare_node, with_children, prop_value, children,
};
use crate::trigger::{Trigger, spec_parse_node, spec_props, spec_kdl_family, prop_str, string_prop, push_string_prop};

verus! {

broadcast use vstd::string::group_string_axioms;

/// One gesture bind: a trigger, the action it fires, and its options.
#[derive(Debug, Clone)]
pub struct TouchBindEntry {
    /// Structured gesture trigger (family + properties).
    pub trigger: Trigger,
    /// Action KDL name, e.g. "focus-workspace-up", "close-window", "spawn", "noop"
    pub action_name: String,
    /// Arguments for actions that take them (e.g. spawn "alacritty")
    pub action_args: Vec<String>,
    /// Sensitivity multiplier (only meaningful for continuous actions)
    pub sensitivity: Option<Real>,
    /// Natural scroll toggle
    pub natural_scroll: bool,
    /// IPC tag for gesture events (external tool integration)
    pub tag: Option<String>,
    /// Whether this bind is enabled (disabled binds are dropped on write)
    pub enabled: bool,
}

/// The mathematical content of a [`TouchBindEntry`].
pub struct BindView {
    pub trigger: Trigger,
    pub action_name: Seq<char>,
    pub action_args: Seq<Seq<char>>,
    pub sensitivity: Option<Real>,
    pub natural_scroll: bool,
    pub tag: Option<Seq<char>>,
    pub enabled: bool,
}

pub open spec fn strings_view(v: Seq<String>) -> Seq<Seq<char>> {
    v.map_values(|s: String| s@)
}

pub open spec fn opt_string_view(o: Option<String>) -> Option<Seq<char>> {
    match o {
        Some(s) => Some(s@),
        None => None,
    }
}

impl View for TouchBindEntry {
    type V = BindView;

    open spec fn view(&self) -> BindView {
        BindView {
            trigger: self.trigger,
            action_name: self.action_name@,
            action_args: strings_view(self.action_args@),
            sensitivity: self.sensitivity,
            natural_scroll: self.natural_scroll,
            tag: opt_string_view(self.tag),
            enabled: self.enabled,
        }
    }
}

pub open spec fn binds_view(v: Seq<TouchBindEntry>) -> Seq<BindView> {
    v.map_values(|b: TouchBindEntry| b@)
}

// ---------------------------------------------------------------------------
// Reading
// ---------------------------------------------------------------------------

/// The string arguments of an action node, in order; properties and other
/// values are skipped.
pub open spec fn action_args_of(entries: Seq<EntryView>) -> Seq<Seq<char>>
    decreases entries.len(),
{
    if entries.len() == 0 {
        Seq::empty()
    } else {
        let prev = action_args_of(entries.drop_last());
        let e = entries.last();
        match e.value {
            ValueView::String(s) => if e.name is None {
                prev.push(s)
            } else {
                prev
            },
            _ => prev,
        }
    }
}

/// The first child of a bind node: the action it fires.
pub open spec fn action_node_of(n: NodeView) -> Option<NodeView> {
    match n.children {
        Some(c) => if c.len() > 0 {
            Some(c[0])
        } else {
            None
        },
        None => None,
    }
}

/// The `sensitivity` property as a number.
pub open spec fn sensitivity_of(n: NodeView) -> Option<Real> {
    match prop_value(n.entries, "sensitivity"@) {
        Some(ValueView::Float(r)) => Some(r),
        Some(ValueView::Integer(i)) => Some(Real::Int(i)),
        _ => None,
    }
}

/// The `natural-scroll` property, false unless it is the boolean true.
pub open spec fn natural_scroll_of(n: NodeView) -> bool {
    match prop_value(n.entries, "natural-scroll"@) {
        Some(ValueView::Bool(b)) => b,
        _ => false,
    }
}

/// The bind a node of a `binds {}` block describes: its trigger must parse
/// and its first child must name a non-empty action.
pub open spec fn spec_read_bind(n: NodeView) -> Option<BindView> {
    match spec_parse_node(n) {
        Some(t) => {
            let action_name = match action_node_of(n) {
                Some(a) => a.label,
                None => Seq::empty(),
            };
            let action_args = match action_node_of(n) {
                Some(a) => action_args_of(a.entries),
                None => Seq::empty(),
            };
            if action_name.len() == 0 {
                None
            } else {
                Some(
                    BindView {
                        trigger: t,
                        action_name: action_name,
                        action_args: action_args,
                        sensitivity: sensitivity_of(n),
                        natural_scroll: natural_scroll_of(n),
                        tag: prop_str(n, "tag"@),
                        enabled: true,
                    },
                )
            }
        },
        None => None,
    }
}

/// The binds described by the nodes of a `binds {}` block, in order.
pub open spec fn spec_read_binds(doc: Seq<NodeView>) -> Seq<BindView>
    decreases doc.len(),
{
    if doc.len() == 0 {
        Seq::empty()
    } else {
        let prev = spec_read_binds(doc.drop_last());
        match spec_read_bind(doc.last()) {
            Some(b) => prev.push(b),
            None => prev,
        }
    }
}

/// The string arguments of an action node.
fn read_action_args(action: &Node) -> (r: Vec<String>)
    ensures
        strings_view(r@) == action_args_of(action@.entries),
{
    let ghost ev = action@.entries;
    let mut args: Vec<String> = Vec::new();
    let mut i: usize = 0;
    while i < action.entries.len()
        invariant
            i <= action.entries.len(),
            ev == action@.entries,
            ev == crate::document::entries_view(action.entries@),
            strings_view(args@) == action_args_of(ev.take(i as int)),
        decreases action.entries.len() - i,
    {
        let e = &action.entries[i];
        assert(ev.take(i + 1).drop_last() =~= ev.take(i as int));
        assert(ev.take(i + 1).last() == e@);
        if e.name.is_none() {
            match &e.value {
                Value::String(s) => {
                    args.push(s.clone());
                    assert(strings_view(args@) =~= action_args_of(ev.take(i as int)).push(s@));
                },
                _ => {},
            }
        }
        i = i + 1;
    }
    assert(ev.take(action.entries.len() as int) =~= ev);
    args
}

/// The bind a node describes, if any.
fn read_bind(node: &Node) -> (r: Option<TouchBindEntry>)
    ensures
        match r {
            Some(b) => spec_read_bind(node@) == Some(b@),
            None => spec_read_bind(node@) is None,
        },
{
    let trigger = Trigger::parse_node(node)?;
    let sensitivity = match node.get("sensitivity") {
        Some(Value::Float(r)) => Some(*r),
        Some(Value::Integer(i)) => Some(Real::Int(*i)),
        _ => None,
    };
    let natural_scroll = match node.get("natural-scroll") {
        Some(Value::Bool(b)) => *b,
        _ => false,
    };
    let tag = match node.get("tag") {
        Some(Value::String(s)) => Some(s.clone()),
        _ => None,
    };
    let mut action_name = String::new();
    let mut action_args: Vec<String> = Vec::new();
    assert(strings_view(action_args@) =~= Seq::<Seq<char>>::empty());
    match children(node) {
        Some(c) => {
            if c.len() > 0 {
                proof {
                    lemma_nodes_view(c@);
                }
                action_name = c[0].label.clone();
                action_args = read_action_args(&c[0]);
            }
        },
        None => {},
    }
    if action_name.as_str().is_empty() {
        return None;
    }
    let b = TouchBindEntry {
        trigger,
        action_name,
        action_args,
        sensitivity,
        natural_scroll,
        tag,
        enabled: true,
    };
    Some(b)
}

/// Read gesture binds from the nodes of a `binds {}` block. Keeps only
/// nodes whose name (stripped of any modifier prefix) parses as a known
/// trigger family with valid properties, and that name an action.
pub fn read_gesture_binds(binds_doc: &Vec<Node>) -> (r: Vec<TouchBindEntry>)
    ensures
        binds_view(r@) == spec_read_binds(nodes_view(binds_doc@)),
{
    proof {
        lemma_nodes_view(binds_doc@);
    }
    let ghost dv = nodes_view(binds_doc@);
    let mut binds: Vec<TouchBindEntry> = Vec::new();
    let mut i: usize = 0;
    assert(dv.take(0) =~= Seq::<NodeView>::empty());
    while i < binds_doc.len()
        invariant
            i <= binds_doc.len(),
            dv == nodes_view(binds_doc@),
            dv.len() == binds_doc@.len(),
            forall|k: int| 0 <= k < binds_doc@.len() ==> #[trigger] dv[k] == node_view(
                binds_doc@[k],
            ),
            binds_view(binds@) == spec_read_binds(dv.take(i as int)),
        decreases binds_doc.len() - i,
    {
        assert(dv.take(i + 1).drop_last() =~= dv.take(i as int));
        assert(dv.take(i + 1).last() == binds_doc@[i as int]@);
        match read_bind(&binds_doc[i]) {
            Some(b) => {
                binds.push(b);
                assert(binds_view(binds@) =~= spec_read_binds(dv.take(i as int)).push(b@));
            },
            None => {},
        }
        i = i + 1;
    }
    assert(dv.take(binds_doc.len() as int) =~= dv);
    binds
}


// ---------------------------------------------------------------------------
// Writing
// ---------------------------------------------------------------------------

/// A `sensitivity=` property.
pub open spec fn sensitivity_prop(r: Real) -> EntryView {
    EntryView { name: Some("sensitivity"@), value: ValueView::Float(r), style: Style::Plain }
}

/// A `natural-scroll=true` property.
pub open spec fn natural_scroll_prop() -> EntryView {
    EntryView { name: Some("natural-scroll"@), value: ValueView::Bool(true), style: Style::Plain }
}

/// The user-facing properties of a bind, after its trigger's: tag,
/// sensitivity, natural-scroll, each only when set.
pub open spec fn bind_options(b: BindView) -> Seq<EntryView> {
    (match b.tag {
        Some(t) => seq![string_prop("tag"@, t)],
        None => Seq::empty(),
    }) + (match b.sensitivity {
        Some(r) => seq![sensitivity_prop(r)],
        None => Seq::empty(),
    }) + (if b.natural_scroll {
        seq![natural_scroll_prop()]
    } else {
        Seq::empty()
    })
}

/// An action argument, printed in quotes after one space.
pub open spec fn action_arg(a: Seq<char>) -> EntryView {
    EntryView { name: None, value: ValueView::String(a), style: Style::SpacedQuoted }
}

/// The action child of a bind node.
pub open spec fn action_node(b: BindView) -> NodeView {
    NodeView {
        entries: b.action_args.map_values(|a: Seq<char>| action_arg(a)),
        ..bare_node(b.action_name)
    }
}

/// The node that describes a bind.
pub open spec fn bind_node(b: BindView) -> NodeView {
    NodeView {
        entries: spec_props(b.trigger) + bind_options(b),
        children: Some(seq![action_node(b)]),
        ..bare_node(spec_kdl_family(b.trigger))
    }
}

/// The nodes of a `binds {}` block: one per enabled bind, in order.
pub open spec fn bind_nodes(bs: Seq<BindView>) -> Seq<NodeView>
    decreases bs.len(),
{
    if bs.len() == 0 {
        Seq::empty()
    } else {
        let prev = bind_nodes(bs.drop_last());
        if bs.last().enabled {
            prev.push(bind_node(bs.last()))
        } else {
            prev
        }
    }
}

/// What `write_gesture_binds` appends to a document: nothing for no binds,
/// else one `binds {}` block.
pub open spec fn binds_block(bs: Seq<BindView>) -> Seq<NodeView> {
    if bs.len() == 0 {
        Seq::empty()
    } else {
        seq![with_children(bare_node("binds"@), bind_nodes(bs))]
    }
}

/// The node for one bind.
fn make_bind_node(bind: &TouchBindEntry) -> (n: Node)
    ensures
        n@ == bind_node(bind@),
{
    let mut node = Node::new(bind.trigger.kdl_family());

    // Trigger properties (fingers, direction, edge, zone) go first
    // so the node name reads naturally when printed.
    bind.trigger.write_props(&mut node);
    let ghost after_trigger = node@.entries;

    // User-facing bind properties: tag, sensitivity, natural-scroll
    if let Some(tag) = &bind.tag {
        push_string_prop(&mut node, "tag", tag.as_str());
    }
    if let Some(sens) = bind.sensitivity {
        node.push(
            Entry {
                name: Some(String::from_str("sensitivity")),
                value: Value::Float(sens),
                style: Style::Plain,
            },
        );
    }
    if bind.natural_scroll {
        node.push(
            Entry {
                name: Some(String::from_str("natural-scroll")),
                value: Value::Bool(true),
                style: Style::Plain,
            },
        );
    }
    assert(node@.entries =~= spec_props(bind.trigger) + bind_options(bind@));

    // Action as child node
    let mut action = Node::new(bind.action_name.as_str());
    let mut i: usize = 0;
    assert(strings_view(bind.action_args@).take(0).map_values(|a: Seq<char>| action_arg(a))
        =~= Seq::<EntryView>::empty());
    while i < bind.action_args.len()
        invariant
            i <= bind.action_args.len(),
            action@ == (NodeView {
                entries: strings_view(bind.action_args@).take(i as int).map_values(
                    |a: Seq<char>| action_arg(a),
                ),
                ..bare_node(bind.action_name@)
            }),
        decreases bind.action_args.len() - i,
    {
        action.push(
            Entry {
                name: None,
                value: Value::String(bind.action_args[i].clone()),
                style: Style::SpacedQuoted,
            },
        );
        i = i + 1;
        assert(action@.entries =~= strings_view(bind.action_args@).take(i as int).map_values(
            |a: Seq<char>| action_arg(a),
        ));
    }
    assert(strings_view(bind.action_args@).take(i as int) =~= strings_view(bind.action_args@));
    let mut kids: Vec<Node> = Vec::new();
    push_node(&mut kids, action);
    proof {
        lemma_nodes_view(kids@);
    }
    node.children = Some(kids);
    assert(nodes_view(kids@) =~= seq![action_node(bind@)]);
    assert(node@ =~= bind_node(bind@));
    node
}

/// Write gesture binds as a top-level `binds {}` block using the
/// property-form trigger syntax niri requires. Disabled binds are left out;
/// with no binds at all nothing is written.
pub fn write_gesture_binds(doc: &mut Vec<Node>, binds: &[TouchBindEntry])
    ensures
        nodes_view(final(doc)@) == nodes_view(old(doc)@) + binds_block(binds_view(binds@)),
{
    if binds.len() == 0 {
        assert(nodes_view(doc@) + binds_block(binds_view(binds@)) =~= nodes_view(doc@));
        return;
    }
    let ghost bv = binds_view(binds@);
    let mut kids: Vec<Node> = Vec::new();
    let mut i: usize = 0;
    assert(bv.take(0) =~= Seq::<BindView>::empty());
    while i < binds.len()
        invariant
            i <= binds.len(),
            bv == binds_view(binds@),
            nodes_view(kids@) == bind_nodes(bv.take(i as int)),
        decreases binds.len() - i,
    {
        assert(bv.take(i + 1).drop_last() =~= bv.take(i as int));
        assert(bv.take(i + 1).last() == binds@[i as int]@);
        if binds[i].enabled {
            let node = make_bind_node(&binds[i]);
            push_node(&mut kids, node);
        }
        i = i + 1;
    }
    assert(bv.take(binds.len() as int) =~= bv);
    let mut block = Node::new("binds");
    block.children = Some(kids);
    assert(block@ =~= with_children(bare_node("binds"@), bind_nodes(bv)));
    let ghost before = nodes_view(doc@);
    push_node(doc, block);
    assert(nodes_view(doc@) =~= before + binds_block(bv));
}

} // verus!
