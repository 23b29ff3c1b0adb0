# kayak_ui render logic, verified

The decision-making part of the unified UI render pipeline, written in Verus:

- `src/quad_type.rs`: quad types, the records of the per-type uniform buffer
  and the type index each quad type is drawn with.
- `src/layers.rs`, `src/visit_order.rs`: the tree of depth layers that
  extracted quads are grouped in, and the depth-first pass over it.
- `src/layer_maps.rs`: the engine hash maps that hold the tree's child lists
  and parent links.
- `src/quads.rs`: extracted quads, the list of quads to draw and the
  entries of the debug dump.
- `src/batching.rs`: the batching state machine that turns the sorted quads
  into draw calls.
- `src/draw.rs`, `src/pipeline.rs`, `src/bind_groups.rs`, `src/quad_mesh.rs`:
  scissor rectangles, pipeline settings, image bind group layout and
  entries, and the corner tables of a quad's two triangles.
- `src/vec_tracker.rs`: the list widget's props.

`app/` holds the floating-point depth arithmetic, vertex generation, the
per-camera queueing loop that performs the batcher's actions through an
engine interface, and the sorted debug print.
