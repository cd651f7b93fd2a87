# servo

Verified pieces of a browser engine, written in Verus:

- `src/id.rs`: pipeline namespaces and the namespaced ids that they hand out (pipelines,
  browsing contexts, webviews, message ports, ...), their text forms and their renderer form.
- `src/app_unit.rs`: app units, the saturating integer lengths of layout.
- `src/flow.rs`: block flow layout: margin collapsing, the placement of block-level
  fragments, inline margins and `justify-self`, the inline content sizes of block
  containers, the steps of sequential layout, and the sizes of floats and atomic inlines.
- `src/embed.rs`: the `<embed>` element: activeness, setup steps, its child navigable and the
  pipelines of that navigable.
- `src/servo.rs`: the state of an engine instance: shutdown, animation, the routing of
  embedder messages, history changes and one spin of the event loop.
- `src/text.rs`: decimal rendering used by the text forms of ids.

`app/` holds what runs around the library: the per-thread id namespace and webview id, the
namespace installer that talks to the constellation over IPC, conversions to the
`app_units` crate, and the embedder's side of the event loop. `tests/` exercises the library.
