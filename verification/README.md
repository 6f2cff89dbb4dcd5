# rust_ui

The decision logic of a small desktop widget toolkit, written in Verus and
proved against its contracts.

- `src/` is the verified library: the widgets' state machines (buttons,
  checkboxes, inputs, selects, menus, tabs, dialogs, popovers, tooltips,
  toasts, sliders, scroll areas, ...), keyboard focus traversal, key
  translation, style merging, hex colors, SVG path data and code-block
  dedenting, with laws such as "later style values win" and "Backspace
  undoes typing" proved as public proof functions.
- `app/` is the ordinary Rust around it: painting through a `Renderer`
  trait, floating-point geometry and animation, layout with taffy, the
  clipboard, HTTP loading, the image caches and the event runtime.
- `tests/` exercises the library on concrete values.
