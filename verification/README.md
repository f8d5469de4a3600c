# exgui

A retained-mode GUI toolkit built around an element tree whose logic is
proved with Verus.

## Layout

- `src/` is the verified library.
  - `egml` is the markup tree: primitives and components reached by child
    paths (`Finger`s) or by id, the requests a component makes of its view
    (`ChangeView`) and how a batch of them adds up, click listeners, words
    and alignments, which messages a mouse press on a primitive sends, how
    groups hand fills, strokes and translations down to the shapes inside
    them, and where a batch of messages sent along a finger goes next.
  - `ui` is the component tree of the toolkit: nodes found by id, the
    bookkeeping of what a component's view needs (`ChangeViewState`), text
    editing, event names and which listeners a system message calls, in
    what order, with what they answer appended to the outputs, the
    tagged placement of an element (`Transform`) and the decisions of the
    window event loop.
  - Each module states its rules as contracts over spec functions; the
    properties that span several functions are proof functions in
    `egml/laws.rs`, `ui/laws.rs` and beside the functions they speak of.
- `tests/` exercises the library on concrete trees, texts and events.
- `app/` holds what works with floating-point geometry, trait objects and
  the window system: shapes, paints, matrices, the component runtime, the
  builders, the glutin window driver and the pathfinder renderer, the one
  renderer of the toolkit. It calls the library for every lookup, edit and
  decision listed above.
