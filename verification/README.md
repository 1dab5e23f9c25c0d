# wayshot

The verified editing core of a screenshot annotation tool for GNOME/Wayland.

- `src/` is the library; every function in it is proved against its contract:
  - `tool.rs`: the annotation tools;
  - `timeline.rs`: the annotation list with its undo and redo stacks as a
    mathematical model, and the laws that undo, redo and edits obey;
  - `editor.rs`: the editor state (document, tool, selection, drag) and its
    operations, each stated against the model, and the topmost-hit rule;
  - `pixelate.rs`: clipping a blur region to the background, the size of its
    pixel blocks, and the bounded cache of pixelated copies;
  - `capture.rs`: what a screenshot portal response leads to.
- `app/` is the GTK application around it: windows, gestures, drawing with
  cairo, and the floating-point geometry of annotations. The library holds each
  annotation by an identifier; the application keeps the shapes themselves.
- `tests/` runs the library on concrete values.
