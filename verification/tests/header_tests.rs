use rgbcraft::header::{Node, NodeKind, RightAlignment, Role, Style, title, view};
use rgbcraft::units::Units;

fn unset() -> Style {
    Style { width: None, right: None, child_space: None, col_between: None, role: None }
}

fn count_right_aligned(n: &Node) -> usize {
    let own: usize = if matches!(n.kind, NodeKind::RightAlignment) { 1 } else { 0 };
    own + n.children.iter().map(count_right_aligned).sum::<usize>()
}

#[test]
fn header_title_is_rgbcraft() {
    assert_eq!(title(), "RGBcraft");
}

#[test]
fn header_tree_has_the_declared_shape() {
    let root = view();
    assert!(matches!(root.kind, NodeKind::VStack));
    assert_eq!(root.style, Style { width: Some(Units::Percentage(100)), ..unset() });
    assert_eq!(root.children.len(), 1);

    let row = &root.children[0];
    assert!(matches!(row.kind, NodeKind::HStack));
    assert_eq!(
        row.style,
        Style {
            width: Some(Units::Percentage(100)),
            child_space: Some(Units::Pixels(10)),
            col_between: Some(Units::Pixels(20)),
            ..unset()
        }
    );
    assert_eq!(row.children.len(), 2);

    let title_button = &row.children[0];
    assert!(matches!(title_button.kind, NodeKind::Button));
    assert_eq!(title_button.style, unset());
    assert_eq!(title_button.children.len(), 1);
    assert_eq!(title_button.children[0].kind, NodeKind::Label(String::from("RGBcraft")));

    let group = &row.children[1];
    assert!(matches!(group.kind, NodeKind::RightAlignment));
    assert_eq!(
        group.style,
        Style {
            width: Some(Units::Percentage(100)),
            right: Some(Units::Pixels(0)),
            role: Some(Role::GenericContainer),
            ..unset()
        }
    );
    assert_eq!(group.children.len(), 1);

    let player_row = &group.children[0];
    assert!(matches!(player_row.kind, NodeKind::HStack));
    assert_eq!(player_row.style, Style { col_between: Some(Units::Pixels(10)), ..unset() });
    assert_eq!(player_row.children.len(), 2);
    assert_eq!(player_row.children[0].kind, NodeKind::Label(String::from("Enn3DevPlayer")));

    let skin_button = &player_row.children[1];
    assert!(matches!(skin_button.kind, NodeKind::Button));
    assert_eq!(skin_button.children.len(), 1);
    assert_eq!(skin_button.children[0].kind, NodeKind::Label(String::from("Skin")));
}

#[test]
fn exactly_one_right_aligned_group() {
    let root = view();
    assert_eq!(count_right_aligned(&root), 1);
}

#[test]
fn right_offset_resolves_to_zero_for_any_parent_width() {
    let root = view();
    let group = &root.children[0].children[1];
    let right = group.style.right.expect("the group sets a right offset");
    assert_eq!(right, Units::Pixels(0));
    for parent in [0u32, 1, 137, 800, u32::MAX] {
        assert_eq!(right.resolved_offset(parent), 0);
    }
}

#[test]
fn right_alignment_advertises_its_element_name() {
    assert_eq!(RightAlignment.element(), Some("right_alignment"));
}

#[test]
fn builders_set_one_property_and_keep_the_rest() {
    let n = Node::label("x")
        .width(Units::Percentage(40))
        .right(Units::Pixels(3))
        .child_space(Units::Pixels(4))
        .col_between(Units::Pixels(5))
        .role(Role::GenericContainer);
    assert_eq!(
        n.style,
        Style {
            width: Some(Units::Percentage(40)),
            right: Some(Units::Pixels(3)),
            child_space: Some(Units::Pixels(4)),
            col_between: Some(Units::Pixels(5)),
            role: Some(Role::GenericContainer),
        }
    );
    assert_eq!(n.kind, NodeKind::Label(String::from("x")));
    assert_eq!(n.children.len(), 0);
}

#[test]
fn rebuilding_the_header_tree_gives_the_same_tree() {
    assert_eq!(view(), view());
}
