//! The header program: a static bar holding a title button on the left and a
//! right-aligned group with a player label and a "Skin" button.
//!
//! The program hands its toolkit a retained-mode tree, built once and never
//! mutated afterwards. This module models that tree as a value: each node
//! carries its kind, the style properties the program sets, and its
//! children, so the shape the toolkit receives can be stated and proved.

use vstd::prelude::*;
use vstd::string::StringExecFns;
use crate::units::Units;
use crate::units::spec_resolved_offset;

verus! {

/// The accessibility role a node may advertise.
#[derive(Clone, Copy, Debug, PartialEq, Eq, Structural)]
pub enum Role {
    GenericContainer,
}

/// The style properties this program sets on its nodes. A property left
/// unset keeps the toolkit's default.
#[derive(Clone, Copy, Debug, PartialEq, Eq, Structural)]
pub struct Style {
    /// The node's own width.
    pub width: Option<Units>,
    /// Offset of the node from the right edge of its parent.
    pub right: Option<Units>,
    /// Space around the children, on every side.
    pub child_space: Option<Units>,
    /// Space between two neighbouring children in a row.
    pub col_between: Option<Units>,
    /// The accessibility role.
    pub role: Option<Role>,
}

/// What a node is.
#[derive(Debug, PartialEq)]
pub enum NodeKind {
    /// A piece of text.
    Label(String),
    /// A button; its caption is its child content. Both buttons of this
    /// program carry an empty press callback, so no event is modelled.
    Button,
    /// A vertical stack of its children.
    VStack,
    /// A horizontal stack of its children.
    HStack,
    /// The custom container that pushes its content toward the right edge.
    RightAlignment,
}

/// One node of the tree the header program builds.
#[derive(Debug, PartialEq)]
pub struct Node {
    pub kind: NodeKind,
    pub style: Style,
    pub children: Vec<Node>,
}

/// A style with every property left to the toolkit's default.
pub open spec fn spec_default_style() -> Style {
    Style { width: None, right: None, child_space: None, col_between: None, role: None }
}

impl Style {
    /// The style of a freshly built node: nothing set.
    pub fn empty() -> (s: Style)
        ensures
            s == spec_default_style(),
    {
        Style { width: None, right: None, child_space: None, col_between: None, role: None }
    }
}

impl Node {
    /// A text label.
    pub fn label(text: &str) -> (n: Node)
        ensures
            n.kind matches NodeKind::Label(t) && t@ == text@,
            n.style == spec_default_style(),
            n.children@.len() == 0,
    {
        Node { kind: NodeKind::Label(String::from_str(text)), style: Style::empty(), children: Vec::new() }
    }

    /// A button wrapping its caption content. The press callback of every
    /// button in this program is empty, so none is modelled.
    pub fn button(content: Node) -> (n: Node)
        ensures
            n.kind is Button,
            n.style == spec_default_style(),
            n.children@ =~= seq![content],
    {
        let mut children: Vec<Node> = Vec::new();
        children.push(content);
        Node { kind: NodeKind::Button, style: Style::empty(), children }
    }

    /// A vertical stack of the given children.
    pub fn vstack(children: Vec<Node>) -> (n: Node)
        ensures
            n.kind is VStack,
            n.style == spec_default_style(),
            n.children == children,
    {
        Node { kind: NodeKind::VStack, style: Style::empty(), children }
    }

    /// A horizontal stack of the given children.
    pub fn hstack(children: Vec<Node>) -> (n: Node)
        ensures
            n.kind is HStack,
            n.style == spec_default_style(),
            n.children == children,
    {
        Node { kind: NodeKind::HStack, style: Style::empty(), children }
    }

    /// Sets the node's width, leaving everything else as it was.
    pub fn width(self, w: Units) -> (n: Node)
        ensures
            n.kind == self.kind,
            n.children == self.children,
            n.style == (Style { width: Some(w), ..self.style }),
    {
        Node { style: Style { width: Some(w), ..self.style }, ..self }
    }

    /// Sets the node's offset from the right edge of its parent.
    pub fn right(self, r: Units) -> (n: Node)
        ensures
            n.kind == self.kind,
            n.children == self.children,
            n.style == (Style { right: Some(r), ..self.style }),
    {
        Node { style: Style { right: Some(r), ..self.style }, ..self }
    }

    /// Sets the space around the node's children.
    pub fn child_space(self, u: Units) -> (n: Node)
        ensures
            n.kind == self.kind,
            n.children == self.children,
            n.style == (Style { child_space: Some(u), ..self.style }),
    {
        Node { style: Style { child_space: Some(u), ..self.style }, ..self }
    }

    /// Sets the space between neighbouring children.
    pub fn col_between(self, u: Units) -> (n: Node)
        ensures
            n.kind == self.kind,
            n.children == self.children,
            n.style == (Style { col_between: Some(u), ..self.style }),
    {
        Node { style: Style { col_between: Some(u), ..self.style }, ..self }
    }

    /// Sets the node's accessibility role.
    pub fn role(self, r: Role) -> (n: Node)
        ensures
            n.kind == self.kind,
            n.children == self.children,
            n.style == (Style { role: Some(r), ..self.style }),
    {
        Node { style: Style { role: Some(r), ..self.style }, ..self }
    }
}

/// The custom container that positions its content at a caller-chosen
/// offset from the right edge of its parent.
pub struct RightAlignment;

impl RightAlignment {
    /// Wraps the given content in a right-aligned container: a node with the
    /// generic-container role whose `right` style property is the given
    /// offset. Nothing else is set.
    pub fn new(right: Units, children: Vec<Node>) -> (n: Node)
        ensures
            n.kind is RightAlignment,
            n.children == children,
            n.style == (Style {
                width: None,
                right: Some(right),
                child_space: None,
                col_between: None,
                role: Some(Role::GenericContainer),
            }),
    {
        let n = Node { kind: NodeKind::RightAlignment, style: Style::empty(), children };
        let n = n.role(Role::GenericContainer);
        n.right(right)
    }

    /// The element name this container advertises to the toolkit.
    pub fn element(&self) -> (r: Option<&'static str>)
        ensures
            r matches Some(s) && s@ == "right_alignment"@,
    {
        Some("right_alignment")
    }
}

/// The title the header program sets on its window.
pub open spec fn spec_title() -> Seq<char> {
    "RGBcraft"@
}

/// The window title of the header program.
pub fn title() -> (t: &'static str)
    ensures
        t@ == spec_title(),
{
    "RGBcraft"
}

/// A bare text label with the given content and no styling.
pub open spec fn is_label(n: Node, text: Seq<char>) -> bool {
    &&& n.kind matches NodeKind::Label(t) && t@ == text
    &&& n.style == spec_default_style()
    &&& n.children@.len() == 0
}

/// An unstyled button whose caption is the given text.
pub open spec fn is_plain_button(n: Node, caption: Seq<char>) -> bool {
    &&& n.kind is Button
    &&& n.style == spec_default_style()
    &&& n.children@.len() == 1
    &&& is_label(n.children@[0], caption)
}

/// The inner row: the player label and the "Skin" button, ten pixels apart.
pub open spec fn is_player_row(n: Node) -> bool {
    &&& n.kind is HStack
    &&& n.style == (Style { col_between: Some(Units::Pixels(10)), ..spec_default_style() })
    &&& n.children@.len() == 2
    &&& is_label(n.children@[0], "Enn3DevPlayer"@)
    &&& is_plain_button(n.children@[1], "Skin"@)
}

/// The right-aligned group: the player row, pushed flush against the right
/// edge (an offset of zero pixels) and spanning the full parent width.
pub open spec fn is_right_group(n: Node) -> bool {
    &&& n.kind is RightAlignment
    &&& n.style == (Style {
        width: Some(Units::Percentage(100)),
        right: Some(Units::Pixels(0)),
        child_space: None,
        col_between: None,
        role: Some(Role::GenericContainer),
    })
    &&& n.children@.len() == 1
    &&& is_player_row(n.children@[0])
}

/// The header row: the title button on the left and the right-aligned group
/// beside it, full width, ten pixels of space around the children and twenty
/// between them.
pub open spec fn is_header_row(n: Node) -> bool {
    &&& n.kind is HStack
    &&& n.style == (Style {
        width: Some(Units::Percentage(100)),
        right: None,
        child_space: Some(Units::Pixels(10)),
        col_between: Some(Units::Pixels(20)),
        role: None,
    })
    &&& n.children@.len() == 2
    &&& is_plain_button(n.children@[0], spec_title())
    &&& is_right_group(n.children@[1])
}

/// The whole tree the header program builds: a full-width vertical root
/// holding the header row and nothing else.
pub open spec fn is_header_tree(n: Node) -> bool {
    &&& n.kind is VStack
    &&& n.style == (Style { width: Some(Units::Percentage(100)), ..spec_default_style() })
    &&& n.children@.len() == 1
    &&& is_header_row(n.children@[0])
}

/// Builds the tree the header program hands its toolkit: the same fixed
/// composition on every call.
pub fn view() -> (n: Node)
    ensures
        is_header_tree(n),
{
    let title_button = Node::button(Node::label("RGBcraft"));

    let mut player_children: Vec<Node> = Vec::new();
    player_children.push(Node::label("Enn3DevPlayer"));
    player_children.push(Node::button(Node::label("Skin")));
    let player_row = Node::hstack(player_children).col_between(Units::Pixels(10));

    let mut group_children: Vec<Node> = Vec::new();
    group_children.push(player_row);
    let right_group = RightAlignment::new(Units::Pixels(0), group_children)
        .width(Units::Percentage(100));

    let mut row_children: Vec<Node> = Vec::new();
    row_children.push(title_button);
    row_children.push(right_group);
    let row = Node::hstack(row_children)
        .width(Units::Percentage(100))
        .child_space(Units::Pixels(10))
        .col_between(Units::Pixels(20));

    let mut root_children: Vec<Node> = Vec::new();
    root_children.push(row);
    Node::vstack(root_children).width(Units::Percentage(100))
}

/// How many right-aligned containers a tree holds, the root included.
pub open spec fn right_aligned_count(n: Node) -> nat
    decreases n,
{
    (if n.kind is RightAlignment {
        1nat
    } else {
        0nat
    }) + right_aligned_count_all(n.children@)
}

/// How many right-aligned containers the trees of a sequence hold together.
pub open spec fn right_aligned_count_all(s: Seq<Node>) -> nat
    decreases s,
{
    if s.len() == 0 {
        0nat
    } else {
        right_aligned_count(s[0]) + right_aligned_count_all(s.drop_first())
    }
}

/// The header tree holds exactly one right-aligned group; its configured
/// right offset resolves to zero pixels whatever the width of its parent.
pub proof fn lemma_one_right_aligned_group(n: Node)
    requires
        is_header_tree(n),
    ensures
        right_aligned_count(n) == 1,
        n.children@[0].children@[1].style.right == Some(Units::Pixels(0u32)),
        forall|parent: u32|
            spec_resolved_offset(n.children@[0].children@[1].style.right->Some_0, parent) == 0,
{
    let row = n.children@[0];
    let group = row.children@[1];
    let player_row = group.children@[0];
    assert(right_aligned_count(n) == 1) by {
        lemma_count_of_label(player_row.children@[0]);
        lemma_count_of_button(player_row.children@[1]);
        lemma_count_of_button(row.children@[0]);
        lemma_count_all_two(player_row.children@);
        lemma_count_all_one(group.children@);
        lemma_count_all_two(row.children@);
        lemma_count_all_one(n.children@);
    }
}

/// The count over a one-tree sequence is the count of that tree.
proof fn lemma_count_all_one(s: Seq<Node>)
    requires
        s.len() == 1,
    ensures
        right_aligned_count_all(s) == right_aligned_count(s[0]),
{
    assert(right_aligned_count_all(s.drop_first()) == 0);
}

/// The count over a two-tree sequence is the sum of the two counts.
proof fn lemma_count_all_two(s: Seq<Node>)
    requires
        s.len() == 2,
    ensures
        right_aligned_count_all(s) == right_aligned_count(s[0]) + right_aligned_count(s[1]),
{
    lemma_count_all_one(s.drop_first());
    assert(s.drop_first()[0] == s[1]);
}

/// A label holds no right-aligned container.
proof fn lemma_count_of_label(n: Node)
    requires
        n.kind is Label,
        n.children@.len() == 0,
    ensures
        right_aligned_count(n) == 0,
{
}

/// A button whose only child is a label holds no right-aligned container.
proof fn lemma_count_of_button(n: Node)
    requires
        n.kind is Button,
        n.children@.len() == 1,
        n.children@[0].kind is Label,
        n.children@[0].children@.len() == 0,
    ensures
        right_aligned_count(n) == 0,
{
    lemma_count_of_label(n.children@[0]);
    lemma_count_all_one(n.children@);
}

} // verus!
