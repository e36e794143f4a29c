//! The library's model of a KDL document: nodes with a name, entries
//! (arguments and `key=value` properties) and optional children.

use vstd::prelude::*;
use crate::text::{str_eq};

verus! {

broadcast use vstd::string::group_string_axioms;

/// A real number as a document holds it: a floating-point value by its
/// IEEE-754 bit pattern, or an integer that stands for the same value
/// converted to floating point.
#[derive(Clone, Copy, Debug, PartialEq, Eq, Structural)]
pub enum Real {
    Bits(u64),
    Int(i128),
}

/// The number is zero: the integer 0, or a float of either sign whose
/// magnitude is 0.
pub open spec fn spec_is_zero(r: Real) -> bool {
    match r {
        Real::Bits(b) => b == 0 || b == 0x8000_0000_0000_0000u64,
        Real::Int(i) => i == 0,
    }
}

impl Real {
    /// Whether this number compares equal to zero.
    pub fn is_zero(&self) -> (r: bool)
        ensures
            r == spec_is_zero(*self),
    {
        match self {
            Real::Bits(b) => *b == 0 || *b == 0x8000_0000_0000_0000u64,
            Real::Int(i) => *i == 0,
        }
    }
}

/// How an entry is to be printed: as the printer chooses; a string forced
/// into double quotes, or into double quotes after one space; or a boolean
/// argument spelled the KDL v1 way (`true`, `false`, no `#`) after one
/// space, as niri's parser reads it.
#[derive(Clone, Copy, Debug, PartialEq, Eq, Structural)]
pub enum Style {
    Plain,
    Quoted,
    SpacedQuoted,
    V1Bool,
}

/// A KDL value.
#[derive(Clone, Debug)]
pub enum Value {
    String(String),
    Integer(i128),
    Float(Real),
    Bool(bool),
    Null,
}

/// The mathematical content of a [`Value`].
pub enum ValueView {
    String(Seq<char>),
    Integer(i128),
    Float(Real),
    Bool(bool),
    Null,
}

impl View for Value {
    type V = ValueView;

    open spec fn view(&self) -> ValueView {
        match self {
            Value::String(s) => ValueView::String(s@),
            Value::Integer(i) => ValueView::Integer(*i),
            Value::Float(r) => ValueView::Float(*r),
            Value::Bool(b) => ValueView::Bool(*b),
            Value::Null => ValueView::Null,
        }
    }
}

/// An entry of a node: an argument (no name) or a property (`name=value`).
#[derive(Clone, Debug)]
pub struct Entry {
    pub name: Option<String>,
    pub value: Value,
    pub style: Style,
}

/// The mathematical content of an [`Entry`].
pub struct EntryView {
    pub name: Option<Seq<char>>,
    pub value: ValueView,
    pub style: Style,
}

impl View for Entry {
    type V = EntryView;

    open spec fn view(&self) -> EntryView {
        EntryView {
            name: match self.name {
                Some(n) => Some(n@),
                None => None,
            },
            value: self.value@,
            style: self.style,
        }
    }
}

/// A node. `name` is the identifier's value; `label` is the identifier as
/// it was written (quotes included when it was quoted).
#[derive(Debug)]
pub struct Node {
    pub name: String,
    pub label: String,
    pub entries: Vec<Entry>,
    pub children: Option<Vec<Node>>,
}

/// The mathematical content of a [`Node`].
pub struct NodeView {
    pub name: Seq<char>,
    pub label: Seq<char>,
    pub entries: Seq<EntryView>,
    pub children: Option<Seq<NodeView>>,
}

pub open spec fn entries_view(s: Seq<Entry>) -> Seq<EntryView> {
    s.map_values(|e: Entry| e@)
}

pub open spec fn node_view(n: Node) -> NodeView
    decreases n,
{
    NodeView {
        name: n.name@,
        label: n.label@,
        entries: entries_view(n.entries@),
        children: match n.children {
            Some(c) => Some(nodes_view(c@)),
            None => None,
        },
    }
}

pub open spec fn nodes_view(s: Seq<Node>) -> Seq<NodeView>
    decreases s,
{
    if s.len() == 0 {
        Seq::empty()
    } else {
        seq![node_view(s[0])] + nodes_view(s.drop_first())
    }
}

impl View for Node {
    type V = NodeView;

    open spec fn view(&self) -> NodeView {
        node_view(*self)
    }
}

/// A node that is looked up, by its view.
pub open spec fn opt_node_view(n: Option<&Node>) -> Option<NodeView> {
    match n {
        Some(n) => Some(n@),
        None => None,
    }
}

/// A value that is looked up, by its view.
pub open spec fn opt_value_view(v: Option<&Value>) -> Option<ValueView> {
    match v {
        Some(v) => Some(v@),
        None => None,
    }
}

pub proof fn lemma_nodes_view(s: Seq<Node>)
    ensures
        nodes_view(s).len() == s.len(),
        forall|i: int| 0 <= i < s.len() ==> #[trigger] nodes_view(s)[i] == node_view(s[i]),
    decreases s.len(),
{
    if s.len() > 0 {
        lemma_nodes_view(s.drop_first());
        assert forall|i: int| 0 <= i < s.len() implies #[trigger] nodes_view(s)[i] == node_view(
            s[i],
        ) by {
            if i > 0 {
                assert(nodes_view(s)[i] == nodes_view(s.drop_first())[i - 1]);
            }
        }
    }
}

pub proof fn lemma_nodes_view_push(s: Seq<Node>, n: Node)
    ensures
        nodes_view(s.push(n)) == nodes_view(s).push(node_view(n)),
{
    lemma_nodes_view(s);
    lemma_nodes_view(s.push(n));
    assert(nodes_view(s.push(n)) =~= nodes_view(s).push(node_view(n)));
}

// ---------------------------------------------------------------------------
// Lookups
// ---------------------------------------------------------------------------

/// The first node of `doc` whose name is `name`.
pub open spec fn find_node(doc: Seq<NodeView>, name: Seq<char>) -> Option<NodeView>
    decreases doc.len(),
{
    if doc.len() == 0 {
        None
    } else if doc[0].name == name {
        Some(doc[0])
    } else {
        find_node(doc.drop_first(), name)
    }
}

/// The value of the last property named `key`.
pub open spec fn prop_value(entries: Seq<EntryView>, key: Seq<char>) -> Option<ValueView>
    decreases entries.len(),
{
    if entries.len() == 0 {
        None
    } else if entries.last().name == Some(key) {
        Some(entries.last().value)
    } else {
        prop_value(entries.drop_last(), key)
    }
}

/// The value of the first entry of a node, argument or property.
pub open spec fn first_value(n: NodeView) -> Option<ValueView> {
    if n.entries.len() > 0 {
        Some(n.entries[0].value)
    } else {
        None
    }
}

pub proof fn lemma_find_node_skip(s: Seq<NodeView>, name: Seq<char>, k: int)
    requires
        0 <= k <= s.len(),
        forall|j: int| 0 <= j < k ==> s[j].name != name,
    ensures
        find_node(s, name) == find_node(s.skip(k), name),
    decreases k,
{
    if k > 0 {
        lemma_find_node_skip(s.drop_first(), name, k - 1);
        assert(s.drop_first().skip(k - 1) =~= s.skip(k));
    } else {
        assert(s.skip(0) =~= s);
    }
}

/// The first node of `doc` named `name` (`KdlDocument::get`).
pub fn get_node<'a>(doc: &'a Vec<Node>, name: &str) -> (r: Option<&'a Node>)
    ensures
        opt_node_view(r) == find_node(nodes_view(doc@), name@),
{
    proof {
        lemma_nodes_view(doc@);
    }
    let ghost dv = nodes_view(doc@);
    let mut i: usize = 0;
    while i < doc.len()
        invariant
            i <= doc.len(),
            dv == nodes_view(doc@),
            dv.len() == doc@.len(),
            forall|k: int| 0 <= k < doc@.len() ==> #[trigger] dv[k] == node_view(doc@[k]),
            forall|j: int| 0 <= j < i ==> dv[j].name != name@,
        decreases doc.len() - i,
    {
        if str_eq(doc[i].name.as_str(), name) {
            proof {
                lemma_find_node_skip(dv, name@, i as int);
                assert(dv.skip(i as int)[0] == dv[i as int]);
            }
            return Some(&doc[i]);
        }
        i = i + 1;
    }
    proof {
        lemma_find_node_skip(dv, name@, i as int);
    }
    None
}

impl Node {
    /// A node with the given name and no entries or children.
    pub fn new(name: &str) -> (n: Node)
        ensures
            n@ == bare_node(name@),
    {
        let n = Node {
            name: String::from_str(name),
            label: String::from_str(name),
            entries: Vec::new(),
            children: None,
        };
        assert(entries_view(n.entries@) =~= Seq::<EntryView>::empty());
        n
    }

    /// The value of the last property named `key` (`KdlNode::get`).
    pub fn get(&self, key: &str) -> (r: Option<&Value>)
        ensures
            opt_value_view(r) == prop_value(self@.entries, key@),
    {
        let ghost ev = self@.entries;
        let mut current: Option<&Value> = None;
        let mut i: usize = 0;
        while i < self.entries.len()
            invariant
                i <= self.entries.len(),
                ev == entries_view(self.entries@),
                opt_value_view(current) == prop_value(ev.take(i as int), key@),
            decreases self.entries.len() - i,
        {
            let e = &self.entries[i];
            assert(ev.take(i + 1).drop_last() =~= ev.take(i as int));
            assert(ev.take(i + 1).last() == e@);
            match &e.name {
                Some(n) => {
                    if str_eq(n.as_str(), key) {
                        current = Some(&e.value);
                    }
                },
                None => {},
            }
            i = i + 1;
        }
        assert(ev.take(self.entries.len() as int) =~= ev);
        current
    }

    /// The value of the first entry.
    pub fn first_value(&self) -> (r: Option<&Value>)
        ensures
            opt_value_view(r) == first_value(self@),
    {
        if self.entries.len() > 0 {
            Some(&self.entries[0].value)
        } else {
            None
        }
    }

    /// Appends an entry.
    pub fn push(&mut self, entry: Entry)
        ensures
            final(self)@ == (NodeView { entries: old(self)@.entries.push(entry@), ..old(self)@ }),
    {
        self.entries.push(entry);
        assert(entries_view(self.entries@) =~= entries_view(old(self).entries@).push(entry@));
    }
}

/// A node named `name` with no entries and no children.
pub open spec fn bare_node(name: Seq<char>) -> NodeView {
    NodeView { name: name, label: name, entries: Seq::empty(), children: None }
}

/// `node` with the given children.
pub open spec fn with_children(node: NodeView, children: Seq<NodeView>) -> NodeView {
    NodeView { children: Some(children), ..node }
}

/// A node `name value` whose single argument is the string `value`, printed
/// in quotes after one space.
pub open spec fn string_node(name: Seq<char>, value: Seq<char>) -> NodeView {
    NodeView {
        entries: seq![
            EntryView { name: None, value: ValueView::String(value), style: Style::SpacedQuoted },
        ],
        ..bare_node(name)
    }
}

/// A node `name value` whose single argument is the float `value`.
pub open spec fn float_node(name: Seq<char>, value: Real) -> NodeView {
    NodeView {
        entries: seq![EntryView { name: None, value: ValueView::Float(value), style: Style::Plain }],
        ..bare_node(name)
    }
}

/// The children of a node, if it has a child block.
pub fn children<'a>(node: &'a Node) -> (r: Option<&'a Vec<Node>>)
    ensures
        match r {
            Some(c) => node@.children == Some(nodes_view(c@)),
            None => node@.children is None,
        },
{
    match &node.children {
        Some(c) => Some(c),
        None => None,
    }
}

// ---------------------------------------------------------------------------
// Readers over a document
// ---------------------------------------------------------------------------

/// The string argument of node `name`, if its first entry is a string.
pub open spec fn spec_read_string_arg(doc: Seq<NodeView>, name: Seq<char>) -> Option<Seq<char>> {
    match find_node(doc, name) {
        Some(n) => match first_value(n) {
            Some(ValueView::String(s)) => Some(s),
            _ => None,
        },
        None => None,
    }
}

/// The numeric argument of node `name`: a float, or an integer.
pub open spec fn spec_read_float_arg(doc: Seq<NodeView>, name: Seq<char>) -> Option<Real> {
    match find_node(doc, name) {
        Some(n) => match first_value(n) {
            Some(ValueView::Float(r)) => Some(r),
            Some(ValueView::Integer(i)) => Some(Real::Int(i)),
            _ => None,
        },
        None => None,
    }
}

/// The integer argument of node `name`.
pub open spec fn spec_read_int_arg(doc: Seq<NodeView>, name: Seq<char>) -> Option<i128> {
    match find_node(doc, name) {
        Some(n) => match first_value(n) {
            Some(ValueView::Integer(i)) => Some(i),
            _ => None,
        },
        None => None,
    }
}

/// Node `name` as a switch: absent is `None`, present without entries is
/// `Some(true)`, present with a boolean first entry is that boolean.
pub open spec fn spec_read_optional_bool(doc: Seq<NodeView>, name: Seq<char>) -> Option<bool> {
    match find_node(doc, name) {
        Some(n) => if n.entries.len() > 0 {
            match n.entries[0].value {
                ValueView::Bool(b) => Some(b),
                _ => None,
            }
        } else {
            Some(true)
        },
        None => None,
    }
}

/// A node named `name` is present.
pub open spec fn has_node(doc: Seq<NodeView>, name: Seq<char>) -> bool {
    find_node(doc, name) is Some
}

pub fn read_string_arg(doc: &Vec<Node>, name: &str) -> (r: Option<String>)
    ensures
        match r {
            Some(s) => spec_read_string_arg(nodes_view(doc@), name@) == Some(s@),
            None => spec_read_string_arg(nodes_view(doc@), name@) is None,
        },
{
    let node = get_node(doc, name)?;
    match node.first_value() {
        Some(Value::String(s)) => Some(s.clone()),
        _ => None,
    }
}

pub fn read_float_arg(doc: &Vec<Node>, name: &str) -> (r: Option<Real>)
    ensures
        r == spec_read_float_arg(nodes_view(doc@), name@),
{
    let node = get_node(doc, name)?;
    match node.first_value() {
        Some(Value::Float(r)) => Some(*r),
        Some(Value::Integer(i)) => Some(Real::Int(*i)),
        _ => None,
    }
}

pub fn read_int_arg(doc: &Vec<Node>, name: &str) -> (r: Option<i128>)
    ensures
        r == spec_read_int_arg(nodes_view(doc@), name@),
{
    let node = get_node(doc, name)?;
    match node.first_value() {
        Some(Value::Integer(i)) => Some(*i),
        _ => None,
    }
}

pub fn read_optional_bool(doc: &Vec<Node>, name: &str) -> (r: Option<bool>)
    ensures
        r == spec_read_optional_bool(nodes_view(doc@), name@),
{
    let node = get_node(doc, name)?;
    match node.first_value() {
        Some(Value::Bool(b)) => Some(*b),
        Some(_) => None,
        None => Some(true),
    }
}

/// Whether a node named `name` is present.
pub fn has_child(doc: &Vec<Node>, name: &str) -> (r: bool)
    ensures
        r == has_node(nodes_view(doc@), name@),
{
    get_node(doc, name).is_some()
}

// ---------------------------------------------------------------------------
// Writers
// ---------------------------------------------------------------------------

/// Appends `node` to `doc`.
pub fn push_node(doc: &mut Vec<Node>, node: Node)
    ensures
        nodes_view(final(doc)@) == nodes_view(old(doc)@).push(node@),
{
    proof {
        lemma_nodes_view_push(doc@, node);
    }
    doc.push(node);
}

/// Appends `name "value"`, the value forced into quotes.
pub fn write_string_node(doc: &mut Vec<Node>, name: &str, value: &str)
    ensures
        nodes_view(final(doc)@) == nodes_view(old(doc)@).push(string_node(name@, value@)),
{
    let mut node = Node::new(name);
    node.push(
        Entry { name: None, value: Value::String(String::from_str(value)), style: Style::SpacedQuoted },
    );
    assert(node@ == string_node(name@, value@));
    push_node(doc, node);
}

/// Appends `name value` with a float argument; the printer rounds it to
/// two decimal places.
pub fn write_float_node(doc: &mut Vec<Node>, name: &str, value: Real)
    ensures
        nodes_view(final(doc)@) == nodes_view(old(doc)@).push(float_node(name@, value)),
{
    let mut node = Node::new(name);
    node.push(Entry { name: None, value: Value::Float(value), style: Style::Plain });
    assert(node@ == float_node(name@, value));
    push_node(doc, node);
}

/// Appends a node `name` with no entries: a flag.
pub fn write_flag_node(doc: &mut Vec<Node>, name: &str)
    ensures
        nodes_view(final(doc)@) == nodes_view(old(doc)@).push(bare_node(name@)),
{
    push_node(doc, Node::new(name));
}

// ---------------------------------------------------------------------------
// KDL text
// ---------------------------------------------------------------------------

#[verifier::external_type_specification]
#[verifier::external_body]
pub struct ExKdlNode(kdl::KdlNode);

#[verifier::external_type_specification]
#[verifier::external_body]
pub struct ExKdlValue(kdl::KdlValue);

/// The nodes the `kdl` crate's parser reads from `text`, in this model;
/// no nodes when the text does not parse.
pub uninterp spec fn kdl_document(text: Seq<char>) -> Seq<NodeView>;

/// Parses KDL text with `kdl::KdlDocument`'s `FromStr` (as KDL v2, and,
/// where that fails, as KDL v1: the crate's `v1-fallback` feature; text that
/// parses as neither gives the empty document) and converts the nodes one
/// for one into this model. Trusted: the result is named `kdl_document` of
/// the text; what the parser reads is not spelled out.
#[verifier::external_body]
pub fn parse_document(text: &str) -> (doc: Vec<Node>)
    ensures
        nodes_view(doc@) == kdl_document(text@),
{
    let parsed: kdl::KdlDocument = text.parse().unwrap_or_default();
    parsed.nodes().iter().map(node_from_kdl).collect()
}

/// The conversion step of `parse_document` for one parsed node: its name's
/// value, its name as written, its entries and its children.
#[verifier::external_body]
fn node_from_kdl(n: &kdl::KdlNode) -> Node {
    Node {
        name: n.name().value().to_string(),
        label: n.name().to_string(),
        entries: n.entries().iter().map(
            |e| Entry {
                name: e.name().map(|i| i.value().to_string()),
                value: value_from_kdl(e.value()),
                style: Style::Plain,
            },
        ).collect(),
        children: n.children().map(|d| d.nodes().iter().map(node_from_kdl).collect()),
    }
}

/// The conversion step of `parse_document` for one value; a float is kept
/// by its bit pattern.
#[verifier::external_body]
fn value_from_kdl(v: &kdl::KdlValue) -> Value {
    match v {
        kdl::KdlValue::String(s) => Value::String(s.clone()),
        kdl::KdlValue::Integer(i) => Value::Integer(*i),
        kdl::KdlValue::Float(f) => Value::Float(Real::Bits(f.to_bits())),
        kdl::KdlValue::Bool(b) => Value::Bool(*b),
        kdl::KdlValue::Null => Value::Null,
    }
}

} // verus!
