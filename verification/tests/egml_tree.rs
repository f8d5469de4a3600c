use exgui::egml::{
    onclick, ChangeView, ClickEvent, Comp, Component, Converter, Transformer, update_all, answer_press, route_batch, Route, ClickListener, Listener, Event, Finger, GetError, Node, Prim, Viewable,
    Word, AlignHor, AlignVer,
};

#[derive(Debug, Clone, PartialEq)]
enum Shape {
    Rect { x: f32, y: f32, width: f32, height: f32 },
    Group,
    Circle { cx: f32, cy: f32, r: f32 },
}

type TestNode = Node<Shape, &'static str>;

fn view() -> TestNode {
    let mut rect = Prim::new("rect", Shape::Rect { x: 0.0, y: 0.0, width: 50.0, height: 80.0 });
    let mut group = Prim::new("group", Shape::Group);
    let circle = Prim::new("circle", Shape::Circle { cx: 120.0, cy: 120.0, r: 40.0 });
    group.childs.push(Node::Prim(circle));
    rect.childs.push(Node::Prim(group));
    Node::Prim(rect)
}

fn check_view(node: &TestNode) {
    match node {
        Node::Prim(prim) => {
            assert_eq!("rect", prim.name());
            assert_eq!(1, prim.childs.len());
            match prim.shape {
                Shape::Rect { x, .. } => assert_eq!(0.0, x),
                _ => (),
            }
            for child in prim.childs.iter() {
                match child {
                    Node::Prim(prim) => {
                        assert_eq!("group", prim.name());
                        assert_eq!(1, prim.childs.len());
                        assert!(match prim.shape {
                            Shape::Group => true,
                            _ => false,
                        });
                        for child in prim.childs.iter() {
                            match child {
                                Node::Prim(prim) => {
                                    assert_eq!("circle", prim.name());
                                    assert_eq!(0, prim.childs.len());
                                    match prim.shape {
                                        Shape::Circle { r, .. } => assert_eq!(40.0, r),
                                        _ => (),
                                    }
                                }
                                _ => (),
                            }
                        }
                    }
                    _ => (),
                }
            }
        }
        _ => (),
    }
}

struct Model;

impl Component for Model {
    type Message = ();
    type Properties = ();

    fn create(_props: &()) -> Self {
        Model
    }

    fn update(&mut self, _msg: ()) -> ChangeView {
        ChangeView::NoChange
    }

    fn change(&mut self, _props: ()) -> ChangeView {
        ChangeView::NoChange
    }
}

impl Viewable<Shape, &'static str> for Model {
    fn view(&self) -> TestNode {
        view()
    }
}

#[test]
fn egml_view() {
    let node = Model::create(&()).view();
    check_view(&node);
}

#[test]
fn mod_view() {
    let node = view();
    check_view(&node);
    assert!(node.comp().is_none());
}

fn tree_with_ids() -> TestNode {
    // root(rect "root") -> [ group "g" -> [ circle "c", comp "inner" ], comp "side" ]
    let mut root = Prim::new("rect", Shape::Rect { x: 0.0, y: 0.0, width: 10.0, height: 10.0 });
    root.id = Some("root".to_string());
    let mut group = Prim::new("group", Shape::Group);
    group.id = Some("g".to_string());
    let mut circle = Prim::new("circle", Shape::Circle { cx: 1.0, cy: 1.0, r: 1.0 });
    circle.id = Some("c".to_string());
    group.add_child(Node::Prim(circle));
    group.add_child(Node::Comp(Comp { id: Some("inner".to_string()), inner: "inner-model" }));
    root.add_child(Node::Prim(group));
    root.add_child(Node::Comp(Comp { id: Some("side".to_string()), inner: "side-model" }));
    Node::Prim(root)
}

#[test]
fn get_prim_by_location() {
    let tree = tree_with_ids();
    let loc = [0usize, 0];
    let prim = tree.get_prim(Finger::Location(&loc)).ok().unwrap();
    assert_eq!("circle", prim.name());
    let root = tree.get_prim(Finger::Root).ok().unwrap();
    assert_eq!(Some("root"), root.id());
    let empty: [usize; 0] = [];
    let same = tree.get_prim(Finger::Location(&empty)).ok().unwrap();
    assert_eq!("rect", same.name());
}

#[test]
fn get_prim_errors() {
    let tree = tree_with_ids();
    let loc = [0usize, 1];
    match tree.get_prim(Finger::Location(&loc)) {
        Err(GetError::TargetIsComp) => (),
        _ => panic!("a component sits at [0, 1]"),
    }
    let loc = [5usize, 0];
    match tree.get_prim(Finger::Location(&loc)) {
        Err(GetError::IdxOutOfBounds { idx, len, tail }) => {
            assert_eq!(5, idx);
            assert_eq!(2, len);
            assert_eq!(&[5usize, 0][..], tail);
        }
        _ => panic!("index 5 is out of bounds"),
    }
    let loc = [1usize, 0];
    match tree.get_prim(Finger::Location(&loc)) {
        Err(GetError::LinkToCompInsteadPrim { tail }) => assert_eq!(&[0usize][..], tail),
        _ => panic!("the path runs through a component"),
    }
    match tree.get_prim(Finger::Id("nothing")) {
        Err(GetError::NotFound) => (),
        _ => panic!("no such id"),
    }
    match tree.get_prim(Finger::Id("inner")) {
        Err(GetError::NotFound) => (),
        _ => panic!("components are not primitives"),
    }
}

#[test]
fn get_prim_by_id() {
    let tree = tree_with_ids();
    assert_eq!("circle", tree.get_prim(Finger::Id("c")).ok().unwrap().name());
    assert_eq!("group", tree.get_prim(Finger::Id("g")).ok().unwrap().name());
    assert_eq!("rect", tree.get_prim(Finger::Id("root")).ok().unwrap().name());
}

#[test]
fn get_comp_by_finger() {
    let tree = tree_with_ids();
    assert_eq!("inner-model", tree.get_comp(Finger::Id("inner")).ok().unwrap().inner);
    assert_eq!("side-model", tree.get_comp(Finger::Id("side")).ok().unwrap().inner);
    let loc = [1usize];
    assert_eq!(Some("side"), tree.get_comp(Finger::Location(&loc)).ok().unwrap().id());
    match tree.get_comp(Finger::Root) {
        Err(GetError::TargetIsPrim) => (),
        _ => panic!("the root is a primitive"),
    }
    match tree.get_comp(Finger::Id("c")) {
        Err(GetError::NotFound) => (),
        _ => panic!("primitives are not components"),
    }
}

#[test]
fn get_mut_writes_in_place() {
    let mut tree = tree_with_ids();
    {
        let circle = tree.get_prim_mut(Finger::Id("c")).ok().unwrap();
        circle.shape = Shape::Circle { cx: 5.0, cy: 6.0, r: 7.0 };
    }
    let loc = [0usize, 0];
    assert_eq!(Shape::Circle { cx: 5.0, cy: 6.0, r: 7.0 }, tree.get_prim(Finger::Location(&loc)).ok().unwrap().shape);
    {
        let loc = [0usize, 1];
        let comp = tree.get_comp_mut(Finger::Location(&loc)).ok().unwrap();
        comp.inner = "replaced";
    }
    assert_eq!("replaced", tree.get_comp(Finger::Id("inner")).ok().unwrap().inner);
    assert!(tree.get_prim_mut(Finger::Id("missing")).is_err());
    assert!(tree.get_comp_mut(Finger::Root).is_err());
}

#[test]
fn change_view_up_keeps_the_strongest() {
    let mut c = ChangeView::NoChange;
    c.up(ChangeView::Modify);
    assert_eq!(ChangeView::Modify, c);
    c.up(ChangeView::NoChange);
    assert_eq!(ChangeView::Modify, c);
    c.up(ChangeView::Rebuild);
    assert_eq!(ChangeView::Rebuild, c);
    c.up(ChangeView::Modify);
    assert_eq!(ChangeView::Rebuild, c);
    assert!(c.is_rebuild());
    assert!(!c.is_modify());
    assert!(!c.is_none());
    assert!(ChangeView::NoChange.is_none());
    assert!(ChangeView::Modify.is_modify());
}

#[test]
fn change_view_combine_ignores_order() {
    let a = [ChangeView::Modify, ChangeView::NoChange, ChangeView::Rebuild];
    let b = [ChangeView::Rebuild, ChangeView::Modify, ChangeView::NoChange];
    assert_eq!(ChangeView::Rebuild, ChangeView::combine(&a));
    assert_eq!(ChangeView::Rebuild, ChangeView::combine(&b));
    assert_eq!(ChangeView::Modify, ChangeView::combine(&[ChangeView::NoChange, ChangeView::Modify]));
    assert_eq!(ChangeView::NoChange, ChangeView::combine(&[]));
}

#[test]
fn click_listener_handles_clicks_only() {
    let listener = onclick(|_: ClickEvent| 42u32);
    assert_eq!(Some(42), listener.handle(Event::Click(ClickEvent)));
    assert_eq!(None, listener.handle(Event::DoubleClick));
    assert_eq!("ClickEvent", listener.kind());
}

#[test]
fn word_id_and_text() {
    let word = Word { id: Some("w".to_string()), content: "hello".to_string() };
    assert_eq!(Some("w"), word.id());
    assert_eq!("hello", word.as_str());
    assert_eq!(None, Word::default().id());
}

#[test]
fn converters() {
    let s: String = "abc".convert();
    assert_eq!("abc", s);
    let o: Option<String> = "abc".convert();
    assert_eq!(Some("abc".to_string()), o);
    let n: Option<i32> = 5.convert();
    assert_eq!(Some(5), n);
    let a: (AlignHor, AlignVer) = AlignHor::Center.convert();
    assert_eq!((AlignHor::Center, AlignVer::Top), a);
    let b: (AlignHor, AlignVer) = AlignVer::Middle.convert();
    assert_eq!((AlignHor::Left, AlignVer::Middle), b);
}

#[test]
fn comp_transformers() {
    let mut comp: Comp<&'static str> = Comp { id: None, inner: "c" };
    let same: u32 = <Comp<&'static str> as Transformer<Model, u32, u32>>::transform(&mut comp, 5);
    assert_eq!(same, 5);
    let cloned: String = <Comp<&'static str> as Transformer<Model, &String, String>>::transform(&mut comp, &"x".to_string());
    assert_eq!(cloned, "x");
    let some: Option<u32> = <Comp<&'static str> as Transformer<Model, u32, Option<u32>>>::transform(&mut comp, 6);
    assert_eq!(some, Some(6));
    let owned: String = <Comp<&'static str> as Transformer<Model, &str, String>>::transform(&mut comp, "label");
    assert_eq!(owned, "label");
    let some_owned: Option<String> =
        <Comp<&'static str> as Transformer<Model, &str, Option<String>>>::transform(&mut comp, "label");
    assert_eq!(some_owned, Some("label".to_string()));
}

#[derive(Debug, PartialEq)]
struct Counter(i32);

#[derive(Clone, Debug, PartialEq)]
enum CounterMsg {
    Increment,
    Reload,
    Keep,
}

impl Component for Counter {
    type Message = CounterMsg;
    type Properties = i32;

    fn create(props: &i32) -> Self {
        Counter(*props)
    }

    fn update(&mut self, msg: CounterMsg) -> ChangeView {
        match msg {
            CounterMsg::Increment => {
                self.0 += 1;
                ChangeView::Modify
            }
            CounterMsg::Reload => ChangeView::Rebuild,
            CounterMsg::Keep => ChangeView::NoChange,
        }
    }

    fn change(&mut self, props: i32) -> ChangeView {
        self.0 = props;
        ChangeView::Rebuild
    }
}

#[test]
fn update_all_hands_every_message_to_the_model() {
    let mut counter = Counter::create(&0);
    let change = update_all(&mut counter, vec![CounterMsg::Increment, CounterMsg::Keep, CounterMsg::Increment]);
    assert_eq!(counter, Counter(2));
    assert!(change == ChangeView::Modify);

    let change = update_all(&mut counter, vec![CounterMsg::Increment, CounterMsg::Reload, CounterMsg::Keep]);
    assert_eq!(counter, Counter(3));
    assert!(change == ChangeView::Rebuild);

    let change = update_all(&mut counter, Vec::new());
    assert_eq!(counter, Counter(3));
    assert!(change == ChangeView::NoChange);
}

fn increment(_: ClickEvent) -> CounterMsg {
    CounterMsg::Increment
}

fn reload(_: ClickEvent) -> CounterMsg {
    CounterMsg::Reload
}

#[test]
fn press_asks_listeners_in_order_only_on_a_hit() {
    let listeners: Vec<ClickListener<fn(ClickEvent) -> CounterMsg, CounterMsg>> =
        vec![onclick(increment), onclick(reload), onclick(increment)];
    assert_eq!(Listener::<Counter>::kind(&listeners[0]), "ClickEvent");

    let mut messages = vec![CounterMsg::Keep];
    answer_press::<Counter, _>(true, &listeners, &mut messages);
    assert_eq!(messages, vec![CounterMsg::Keep, CounterMsg::Increment, CounterMsg::Reload, CounterMsg::Increment]);

    let mut missed = vec![CounterMsg::Keep];
    answer_press::<Counter, _>(false, &listeners, &mut missed);
    assert_eq!(missed, vec![CounterMsg::Keep]);

    let none: Vec<ClickListener<fn(ClickEvent) -> CounterMsg, CounterMsg>> = Vec::new();
    let mut untouched = Vec::new();
    answer_press::<Counter, _>(true, &none, &mut untouched);
    assert!(untouched.is_empty());
}

fn into_of(route: Result<Route, GetError>) -> (Vec<usize>, Option<Vec<usize>>) {
    match route {
        Ok(Route::Into { path, rest }) => (path, rest.map(|tail| tail.to_vec())),
        _ => panic!("expected a route into a nested component"),
    }
}

#[test]
fn route_batch_to_self_and_into_components() {
    let tree = tree_with_ids();
    assert!(matches!(route_batch(&tree, Finger::Root), Ok(Route::Here)));
    assert!(matches!(route_batch(&tree, Finger::Location(&[])), Ok(Route::Here)));
    assert_eq!(into_of(route_batch(&tree, Finger::Location(&[0, 1, 5]))), (vec![0, 1], Some(vec![5])));
    assert_eq!(into_of(route_batch(&tree, Finger::Location(&[1]))), (vec![1], Some(vec![])));
    assert_eq!(into_of(route_batch(&tree, Finger::Id("inner"))), (vec![0, 1], None));
    assert_eq!(into_of(route_batch(&tree, Finger::Id("side"))), (vec![1], None));

    let top: TestNode = Node::Comp(Comp { id: Some("top".to_string()), inner: "top-model" });
    assert_eq!(into_of(route_batch(&top, Finger::Location(&[0, 2]))), (vec![], Some(vec![2])));
    assert_eq!(into_of(route_batch(&top, Finger::Id("top"))), (vec![], None));
}

#[test]
fn route_batch_errors() {
    let tree = tree_with_ids();
    match route_batch(&tree, Finger::Location(&[0])) {
        Err(GetError::LinkToPrimInsteadOfComp { tail }) => assert!(tail.is_empty()),
        _ => panic!("a path ending at a primitive does not reach a component"),
    }
    match route_batch(&tree, Finger::Location(&[0, 0])) {
        Err(GetError::LinkToPrimInsteadOfComp { tail }) => assert!(tail.is_empty()),
        _ => panic!("a path ending at a primitive does not reach a component"),
    }
    match route_batch(&tree, Finger::Location(&[5, 1])) {
        Err(GetError::IdxOutOfBounds { idx, len, tail }) => {
            assert_eq!((idx, len), (5, 2));
            assert_eq!(tail, &[5usize, 1][..]);
        }
        _ => panic!("index 5 is out of bounds"),
    }
    assert!(matches!(route_batch(&tree, Finger::Id("c")), Err(GetError::NotFound)));
    assert!(matches!(route_batch(&tree, Finger::Id("nope")), Err(GetError::NotFound)));

    let top: TestNode = Node::Comp(Comp { id: None, inner: "top-model" });
    match route_batch(&top, Finger::Location(&[1, 3])) {
        Err(GetError::TopCompMustHaveZeroIdx { idx, tail }) => {
            assert_eq!(idx, 1);
            assert_eq!(tail, &[1usize, 3][..]);
        }
        _ => panic!("a component view is reached by index 0"),
    }
    assert!(matches!(route_batch(&top, Finger::Id("top")), Err(GetError::NotFound)));
}
