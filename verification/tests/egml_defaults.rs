use exgui::egml::{Comp, Defaults, Node, Prim, Style, Styled};

type Shape = Styled<&'static str, u32, (i32, i32), &'static str>;
type StyledNode = Node<Shape, &'static str>;

fn leaf(drawing: &'static str, fill: Option<&'static str>, stroke: Option<u32>) -> StyledNode {
    Node::Prim(Prim::new(drawing, Styled { style: Style::Leaf { fill, stroke, translate_by: None }, drawing }))
}

fn group(
    fill: Option<&'static str>,
    stroke: Option<u32>,
    translate: Option<(i32, i32)>,
    children: Vec<StyledNode>,
) -> StyledNode {
    let mut prim = Prim::new("group", Styled { style: Style::Group { fill, stroke, translate }, drawing: "group" });
    for child in children {
        prim.add_child(child);
    }
    Node::Prim(prim)
}

fn style_at(node: &StyledNode, path: &[usize]) -> (Option<&'static str>, Option<u32>, Option<(i32, i32)>) {
    let mut node = node;
    for &idx in path {
        node = &node.prim().unwrap().childs[idx];
    }
    match node.prim().unwrap().shape.style {
        Style::Leaf { fill, stroke, translate_by } => (fill, stroke, translate_by),
        _ => panic!("not a drawn shape"),
    }
}

#[test]
fn groups_hand_their_settings_down() {
    // group(fill red, translate (5, 5)) -> [ rect, rect(fill blue), group(stroke 2) -> [ circle ] ]
    let mut tree = group(
        Some("red"),
        None,
        Some((5, 5)),
        vec![
            leaf("rect", None, None),
            leaf("rect", Some("blue"), None),
            group(None, Some(2), None, vec![leaf("circle", None, None)]),
        ],
    );
    assert!(tree.resolve(None));
    assert_eq!(style_at(&tree, &[0]), (Some("red"), None, Some((5, 5))));
    assert_eq!(style_at(&tree, &[1]), (Some("blue"), None, Some((5, 5))));
    assert_eq!(style_at(&tree, &[2, 0]), (Some("red"), Some(2), Some((5, 5))));
}

#[test]
fn groups_without_settings_pass_defaults_through() {
    let mut tree = group(None, None, None, vec![leaf("rect", None, Some(7))]);
    let defaults = Defaults { fill: Some("green"), stroke: Some(1), translate: None };
    assert!(tree.resolve(Some(defaults)));
    assert_eq!(style_at(&tree, &[0]), (Some("green"), Some(7), None));

    let mut bare = group(None, None, None, vec![leaf("rect", None, None)]);
    assert!(bare.resolve(None));
    assert_eq!(style_at(&bare, &[0]), (None, None, None));
}

#[test]
fn components_resolve_their_own_views() {
    let mut comp: StyledNode = Node::Comp(Comp { id: None, inner: "model" });
    assert!(!comp.resolve(Some(Defaults { fill: Some("red"), stroke: None, translate: None })));
    assert!(comp.comp().is_some());
}
