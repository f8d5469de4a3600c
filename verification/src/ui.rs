//! The component tree of the core toolkit: nodes found by id, component
//! change tracking, text editing and event names.

pub mod builder;
pub mod converter;
pub mod model;
pub mod node;
pub mod text;
pub mod transform;
pub mod value;
pub mod listener;
pub mod dispatch;
pub mod run;
pub mod laws;

pub use self::converter::ConvertTo;
pub use self::model::{ChangeView, ChangeViewState, ViewUpdatePlan};
pub use self::node::{Comp, Node, Prim};
pub use self::text::{AlignHor, AlignVer, Text};
pub use self::builder::EventHandler;
pub use self::listener::{EventName, ListenerKind};
pub use self::dispatch::{answering, dispatch, MessageKind, SystemListener};
pub use self::run::{next_step, AppState, LoopStep, WindowInput};
pub use self::value::Pct;
pub use self::transform::Transform;
