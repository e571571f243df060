# galileo

A map-rendering library: render bundles that collect tessellated map primitives and keep
them addressable for updates and removal, tile indexing with wrapping over the antimeridian,
font selection for labels, the fading of labels, and the calls that the GPU pipelines make
on a render pass to draw packed bundles.

## Layout

- `src/` is the verified library (Verus). Its contracts describe the bundles' buffers, the
  primitive table and its free slots, the tiles of an index range, the calls made on a render
  pass (as a sequence of calls), the font chosen for a text, and the label fade states.
  Laws that relate several operations are public proof functions next to the operations they
  speak of (for example `lemma_remove_undoes_add`, `lemma_cut_undoes_append`,
  `lemma_wrapped_x_in_schema`, `lemma_horizon_indices_in_range`,
  `lemma_reversal_keeps_progress`, `lemma_added_id_stays`, `lemma_remove_twice`,
  `lemma_unclip_mirrors_clip`). The module `render_bundle::removal` states when removing a
  primitive succeeds: in every bundle that stays consistent, which `new`, the additions (but
  for shaped labels) and removals keep (`lemma_removal_succeeds`).
- `tests/` exercises the library on concrete values.
- `app/` is ordinary Rust around the library: GPU resource creation and upload, the draw
  loop, and everything computed in floating point (the map view, line and polygon
  tessellation, point symbol geometry, text shaping, the horizon rings, label placement and
  opacity, the float part of the tile schema). When a label fade ends is decided in the library
  (`RenderSetState::settle`); the app computes the opacity in between.

The WGSL shaders of the pipelines are supplied by the embedding application.
