//! The element tree of the `egml` markup: nodes, primitives, components and
//! the decisions a component makes about its view.

pub mod change_view;
pub mod node;
pub mod laws;
pub mod event;
pub mod route;
pub mod defaults;
pub mod component;
pub mod converter;
pub mod shape;
pub mod value;

pub use self::change_view::{strength, stronger, ChangeView};
pub use self::node::{Attrs, Comp, Finger, GetError, LookupError, Node, Prim};
pub use self::defaults::{handed_on, inherited, resolved, resolved_from, Defaults, Style, Styled};
pub use self::route::{route_batch, route_of, Route, RouteTo};
pub use self::event::{answer_press, onclick, sent, ClickEvent, ClickListener, Event, Listener};
pub use self::converter::Converter;
pub use self::shape::{AlignHor, AlignVer, LineCap, LineJoin, Word};
pub use self::value::Pct;
pub use self::component::{combined, update_all, Component, ComponentMessage, ComponentProperties, ModelComponent, Nodeable, Transformer, Viewable, ViewableComponent};
