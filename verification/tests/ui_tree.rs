use exgui::ui::{
    AlignHor, AlignVer, ChangeView, ChangeViewState, Comp, ConvertTo, EventHandler, EventName, ListenerKind, Node,
    Prim, Text, Transform,
};

#[derive(Debug, Clone, PartialEq)]
enum Shape {
    Rect(f32, f32),
    Text(String),
}

type TestNode = Node<Shape, u32>;

fn named(name: &str, id: Option<&str>, shape: Shape, children: Vec<TestNode>) -> TestNode {
    let mut prim = Prim::new(name, shape, children);
    prim.id = id.map(|s| s.to_string());
    Node::Prim(prim)
}

fn comp(id: Option<&str>, inner: u32) -> TestNode {
    let mut comp = Comp::new(inner);
    if let Some(id) = id {
        comp.set_id(id.to_string());
    }
    Node::Comp(comp)
}

// root "root"
//   rect "a"
//     comp "dup" (1)
//   rect "dup"
//   comp "b" (2)
fn tree() -> TestNode {
    named(
        "rect",
        Some("root"),
        Shape::Rect(0.0, 0.0),
        vec![
            named("rect", Some("a"), Shape::Rect(1.0, 1.0), vec![comp(Some("dup"), 1)]),
            named("rect", Some("dup"), Shape::Rect(2.0, 2.0), vec![]),
            comp(Some("b"), 2),
        ],
    )
}

#[test]
fn get_finds_first_node_in_preorder() {
    let t = tree();
    assert_eq!(Some("root"), t.get("root").unwrap().get_id());
    // The component "dup" comes before the primitive "dup" in pre-order.
    assert_eq!(1, t.get("dup").unwrap().as_comp().unwrap().inner);
    assert_eq!(2, t.get("b").unwrap().as_comp().unwrap().inner);
    assert!(t.get("zzz").is_none());
}

#[test]
fn get_prim_skips_components() {
    let t = tree();
    let p = t.get_prim("dup").unwrap();
    assert_eq!(Shape::Rect(2.0, 2.0), p.shape);
    assert!(t.get_prim("b").is_none());
    assert_eq!(Some("a"), t.get_prim("a").unwrap().id());
}

#[test]
fn get_comp_mut_finds_components() {
    let mut t = tree();
    t.get_comp_mut("dup").unwrap().inner = 10;
    assert_eq!(10, t.get("dup").unwrap().as_comp().unwrap().inner);
    assert!(t.get_comp_mut("a").is_none());
}

#[test]
fn get_mut_and_get_prim_mut_write_in_place() {
    let mut t = tree();
    t.get_prim_mut("dup").unwrap().shape = Shape::Text("x".to_string());
    assert_eq!(Shape::Text("x".to_string()), t.get_prim("dup").unwrap().shape);
    t.get_mut("b").unwrap().set_id("c".to_string());
    assert!(t.get("b").is_none());
    assert_eq!(2, t.get("c").unwrap().as_comp().unwrap().inner);
    assert!(t.get_mut("nope").is_none());
}

#[test]
fn node_accessors() {
    let t = tree();
    assert!(t.as_prim().is_some());
    assert!(t.as_comp().is_none());
    let c = comp(None, 7);
    assert_eq!(None, c.get_id());
    assert_eq!(7, c.into_comp().unwrap().inner);
    assert!(tree().into_prim().is_some());
    let mut t = tree();
    t.as_prim_mut().unwrap().name = "root-rect".to_string();
    assert_eq!("root-rect", t.as_prim().unwrap().name);
    assert!(t.as_comp_mut().is_none());
}

#[test]
fn change_view_state_records_needs() {
    let mut state = ChangeViewState::default();
    state.update(ChangeView::NoChange);
    assert_eq!(ChangeViewState::default(), state);
    state.update(ChangeView::Modify);
    assert!(state.need_modify && !state.need_rebuild);
    state.update(ChangeView::Rebuild);
    assert!(state.need_modify && state.need_rebuild);
    state.update(ChangeView::NoChange);
    assert!(state.need_modify && state.need_rebuild && !state.need_recalc);
}

#[test]
fn text_insert_push_remove() {
    let mut text = Text { content: "hllo".to_string(), ..Default::default() };
    text.insert(1, 'e');
    assert_eq!("hello", text.content);
    text.insert(100, '!');
    assert_eq!("hello!", text.content);
    text.push('?');
    assert_eq!("hello!?", text.content);
    text.remove(5);
    assert_eq!("hello?", text.content);
    text.remove(42);
    assert_eq!("hello?", text.content);
    text.insert(0, '>');
    assert_eq!(">hello?", text.content);
}

#[test]
fn text_insert_then_remove_restores() {
    let mut text = Text { content: "añb€".to_string(), ..Default::default() };
    text.insert(2, 'ß');
    assert_eq!("añßb€", text.content);
    text.remove(2);
    assert_eq!("añb€", text.content);
    assert_eq!(None, text.id());
}

#[test]
fn event_names() {
    assert_eq!("Draw", EventName::draw().as_str());
    assert_eq!("OnClick", ListenerKind::OnClick.event_name().as_str());
    assert_eq!("WindowResized", ListenerKind::WindowResized.event_name().as_str());
    assert_eq!("OnMouseScroll", ListenerKind::OnMouseScroll.event_name().as_str());
    assert_eq!(EventName::on_blur(), ListenerKind::OnBlur.event_name());
    assert_ne!(ListenerKind::OnKeyDown.event_name(), ListenerKind::OnKeyUp.event_name());
}

#[test]
fn align_defaults_and_conversion() {
    assert_eq!(AlignHor::Left, AlignHor::default());
    assert_eq!(AlignVer::Top, AlignVer::default());
    let a: (AlignHor, AlignVer) = AlignVer::Baseline.convert();
    assert_eq!((AlignHor::Left, AlignVer::Baseline), a);
    let s: String = "x".convert();
    assert_eq!("x", s);
}

#[derive(Debug, Clone, Copy, PartialEq)]
struct Offset(i64);

impl std::ops::Mul for Offset {
    type Output = Offset;

    fn mul(self, rhs: Offset) -> Offset {
        Offset(self.0 + rhs.0)
    }
}

#[test]
fn transform_placement() {
    let mut t = Transform::Local(Offset(3));
    assert!(t.is_relative());
    assert_eq!(Some(Offset(3)), t.local_matrix());
    assert_eq!(None, t.global_matrix());
    assert_eq!(Offset(10), t.calculate_global(Offset(7)));
    assert_eq!(Transform::Calculated { local: Some(Offset(3)), global: Offset(10) }, t);
    assert_eq!(Some(Offset(10)), t.calculated_matrix());
    assert_eq!(Offset(3), t.matrix());
    t.transform(|m| Offset(m.0 * 2));
    assert_eq!(Transform::Local(Offset(6)), t);

    let mut g = Transform::Global(Offset(5));
    assert!(g.is_absolute());
    assert_eq!(Offset(5), g.calculate_global(Offset(100)));
    assert!(g.is_absolute());
    g.transform(|m| Offset(m.0 + 1));
    assert_eq!(Transform::Global(Offset(6)), g);
    assert_eq!(None, g.calculated_matrix());
}

struct Button(u8);

impl EventHandler<u8> for Button {}

#[test]
fn event_handler_default_keeps_builder() {
    let b = Button(3).on_click(|_| 1u8);
    assert_eq!(3, b.0);
}
