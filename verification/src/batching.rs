use vstd::prelude::*;
use crate::quad_type::{UIQuadType, QuadTypeOffsets, type_index_of};

verus! {

/// The render phase a finished batch is queued in.
#[derive(Debug, Clone, Copy, PartialEq, Eq, Structural)]
pub enum Phase {
    /// The ordinary transparent UI phase.
    Transparent,
    /// The phase that draws into an opacity layer.
    Opacity,
}

/// The clip rectangle a finished batch is drawn with.
#[derive(Debug, Clone, Copy, PartialEq, Eq, Structural)]
pub enum ClipSource {
    /// The clip that is current when the batch is queued.
    Current,
    /// The clip that was current when the batch started.
    Last,
}

/// A finished batch: the phase it goes to, the clip it is drawn with, the
/// type and opacity layer of the last quad drawn with it, the type index it
/// is drawn with and its range of vertex indices.
#[derive(Debug, Clone, Copy, PartialEq, Eq, Structural)]
pub struct PhaseItem {
    pub phase: Phase,
    pub clip: ClipSource,
    pub quad_type: UIQuadType,
    pub opacity_layer: u32,
    pub type_index: u32,
    pub start: u32,
    pub end: u32,
}

/// Whether the image of a quad can be bound.
#[derive(Debug, Clone, Copy, PartialEq, Eq, Structural)]
pub enum ImageState {
    /// The quad has no image.
    Absent,
    /// The quad's image is loaded on the GPU.
    Ready,
    /// The quad names an image that is not loaded yet.
    Missing,
}

/// For a quad that draws an opacity layer: whether the layer's render target
/// can be bound.
#[derive(Debug, Clone, Copy, PartialEq, Eq, Structural)]
pub enum OpacityTarget {
    /// The camera has no opacity layers.
    NoCameraLayer,
    /// The layer's target image is loaded.
    Ready,
    /// The layer's target image is not loaded yet.
    Missing,
}

/// What the batcher needs to know of one quad, as seen by one camera.
#[derive(Debug, Clone, Copy, PartialEq, Eq, Structural)]
pub struct QuadEvent {
    /// The quad belongs to the camera being drawn.
    pub camera_matches: bool,
    pub quad_type: UIQuadType,
    /// Type and opacity layer of the quad handled just before this one.
    pub previous_type: UIQuadType,
    pub previous_opacity_layer: u32,
    /// The current clip rectangle is less than one pixel wide or high.
    pub clip_too_small: bool,
    /// The batch this quad would form differs from the current batch
    /// (image, font, type, type index or depth).
    pub batch_differs: bool,
    pub image: ImageState,
    /// The quad has a font whose atlas is loaded.
    pub font_ready: bool,
    pub opacity_target: OpacityTarget,
}

/// What to do for one quad, in this order; a step that is not taken is
/// `false` or `None`.
#[derive(Debug, Clone, Copy, PartialEq, Eq, Structural)]
pub struct BatchAction {
    /// Make the quad's rectangle the current clip.
    pub set_clip: bool,
    /// Store the current batch on its entity.
    pub store_previous_batch: bool,
    /// Queue the current batch as a phase item.
    pub close: Option<PhaseItem>,
    /// Make sure a bind group exists for the quad's image.
    pub bind_image: bool,
    /// Make sure a bind group exists for the quad's font atlas.
    pub bind_font: bool,
    /// Bind the render target of the quad's opacity layer.
    pub bind_opacity_target: bool,
    /// Make the quad's batch the current batch and the current clip the last clip.
    pub start_batch: bool,
    /// Spawn an entity for the new batch.
    pub spawn_batch: bool,
    /// Write the quad's vertices, then report their count with `add_vertices`.
    pub emit_vertices: bool,
}

/// The phase that a batch last drawn with a quad of type `ty` in opacity
/// layer `opacity_layer` belongs to.
pub open spec fn phase_of(ty: UIQuadType, opacity_layer: u32) -> Phase {
    if opacity_layer > 0 && ty != UIQuadType::DrawOpacityLayer {
        Phase::Opacity
    } else {
        Phase::Transparent
    }
}

/// A batch closed by the next quad is drawn with the current clip in the
/// opacity phase and with the clip it started under otherwise.
pub open spec fn closing_clip(phase: Phase) -> ClipSource {
    match phase {
        Phase::Opacity => ClipSource::Current,
        Phase::Transparent => ClipSource::Last,
    }
}

fn phase_for(ty: UIQuadType, opacity_layer: u32) -> (phase: Phase)
    ensures
        phase == phase_of(ty, opacity_layer),
{
    if opacity_layer > 0 && ty != UIQuadType::DrawOpacityLayer {
        Phase::Opacity
    } else {
        Phase::Transparent
    }
}

/// The quad is not drawn for this camera at all.
pub open spec fn skips(ev: QuadEvent) -> bool {
    ||| !ev.camera_matches
    ||| ev.quad_type == UIQuadType::OpacityLayer
    ||| ev.quad_type == UIQuadType::NoType
    ||| ev.clip_too_small && ev.quad_type != UIQuadType::Clip
}

/// The quad's image or opacity target is not loaded, so it is left out after
/// the previous batch has been closed.
pub open spec fn blocked(ev: QuadEvent) -> bool {
    ||| ev.image == ImageState::Missing
    ||| ev.quad_type == UIQuadType::DrawOpacityLayer && ev.opacity_target == OpacityTarget::Missing
}

/// The batching state carried from quad to quad across all cameras of a frame.
#[derive(Debug, Clone, Copy, PartialEq, Eq, Structural)]
pub struct BatchState {
    /// Type of the current batch (`NoType` before the first one).
    pub batch_type: UIQuadType,
    /// Type index of the current batch.
    pub batch_type_index: u32,
    /// A batch entity has been spawned.
    pub has_batch_entity: bool,
    /// Number of vertices written so far.
    pub index: u32,
    /// Vertex index at which the current batch started.
    pub item_start: u32,
    /// Vertex index at which the last written quad ended.
    pub item_end: u32,
    /// Start of the range of the batch to be queued next.
    pub old_item_start: u32,
}

impl BatchState {
    /// Vertex ranges are ordered: a queued range never ends before it starts
    /// and never reaches past the vertices written.
    pub open spec fn wf(self) -> bool {
        &&& self.old_item_start <= self.item_end <= self.index
        &&& self.item_start <= self.index
    }

    /// The quad ends the current batch.
    pub open spec fn breaks_batch(self, ev: QuadEvent) -> bool {
        ||| ev.batch_differs
        ||| self.batch_type != ev.quad_type
        ||| ev.previous_type == UIQuadType::Clip
        ||| ev.quad_type == UIQuadType::Clip
        ||| ev.quad_type == UIQuadType::DrawOpacityLayer
    }

    /// When a batch ends, the current batch is stored on its entity.
    pub open spec fn stores_previous(self, ev: QuadEvent) -> bool {
        &&& self.has_batch_entity
        &&& ev.previous_type != UIQuadType::Clip
        &&& ev.previous_type != UIQuadType::OpacityLayer
    }

    /// When a batch ends, the current batch is queued as a phase item.
    pub open spec fn closes_previous(self, ev: QuadEvent) -> bool {
        &&& self.batch_type != UIQuadType::Clip
        &&& self.batch_type != UIQuadType::OpacityLayer
        &&& ev.previous_type != UIQuadType::Clip
        &&& self.has_batch_entity
    }

    /// The quad starts a new batch.
    pub open spec fn starts_batch(self, ev: QuadEvent) -> bool {
        !skips(ev) && self.breaks_batch(ev) && !blocked(ev)
    }

    /// The quad's vertices are written.
    pub open spec fn emits(self, ev: QuadEvent) -> bool {
        &&& !skips(ev)
        &&& !(self.breaks_batch(ev) && blocked(ev))
        &&& (if self.starts_batch(ev) { ev.quad_type } else { self.batch_type }) != UIQuadType::Clip
    }

    /// The state before the first quad of a frame.
    pub fn new(offsets: &QuadTypeOffsets) -> (state: Self)
        ensures
            state.wf(),
            state.batch_type == UIQuadType::NoType,
            state.batch_type_index == offsets.quad_type_offset,
            !state.has_batch_entity,
            state.index == 0,
            state.item_start == 0,
            state.item_end == 0,
            state.old_item_start == 0,
    {
        BatchState {
            batch_type: UIQuadType::NoType,
            batch_type_index: offsets.quad_type_offset,
            has_batch_entity: false,
            index: 0,
            item_start: 0,
            item_end: 0,
            old_item_start: 0,
        }
    }

    /// Decides what to do for one quad and updates the state; the vertices
    /// themselves are written afterwards with `write_vertices`. A new batch
    /// takes the quad's type index under `offsets`.
    pub fn step(&mut self, ev: QuadEvent, offsets: &QuadTypeOffsets) -> (action: BatchAction)
        requires
            old(self).wf(),
        ensures
            final(self).wf(),
            action.set_clip == (!skips(ev) && ev.quad_type == UIQuadType::Clip),
            action.store_previous_batch == (!skips(ev) && old(self).breaks_batch(ev) && old(self).stores_previous(ev)),
            action.close == (if !skips(ev) && old(self).breaks_batch(ev) && old(self).closes_previous(ev) {
                Some(PhaseItem {
                    phase: phase_of(ev.previous_type, ev.previous_opacity_layer),
                    clip: closing_clip(phase_of(ev.previous_type, ev.previous_opacity_layer)),
                    quad_type: ev.previous_type,
                    opacity_layer: ev.previous_opacity_layer,
                    type_index: old(self).batch_type_index,
                    start: old(self).old_item_start,
                    end: old(self).item_end,
                })
            } else {
                None
            }),
            action.bind_image == (!skips(ev) && old(self).breaks_batch(ev) && ev.image == ImageState::Ready),
            action.bind_font == (!skips(ev) && old(self).breaks_batch(ev) && ev.image != ImageState::Missing
                && ev.font_ready),
            action.bind_opacity_target == (!skips(ev) && old(self).breaks_batch(ev) && ev.image != ImageState::Missing
                && ev.quad_type == UIQuadType::DrawOpacityLayer && ev.opacity_target == OpacityTarget::Ready),
            action.start_batch == old(self).starts_batch(ev),
            action.spawn_batch == (old(self).starts_batch(ev) && ev.quad_type != UIQuadType::Clip
                && ev.quad_type != UIQuadType::OpacityLayer),
            action.emit_vertices == old(self).emits(ev),
            action.close matches Some(item) ==> item.start <= item.end && final(self).old_item_start
                == item.end,
            !skips(ev) && ev.batch_differs && !blocked(ev) ==> action.start_batch && final(self).batch_type
                == ev.quad_type,
            !skips(ev) && ev.batch_differs && old(self).has_batch_entity && old(self).batch_type
                != UIQuadType::Clip && old(self).batch_type != UIQuadType::OpacityLayer && ev.previous_type
                != UIQuadType::Clip ==> action.close is Some,
            !skips(ev) && ev.batch_differs && ev.image == ImageState::Ready ==> action.bind_image,
            !skips(ev) && !ev.batch_differs && old(self).batch_type == ev.quad_type && ev.previous_type
                != UIQuadType::Clip && ev.quad_type != UIQuadType::Clip && ev.quad_type
                != UIQuadType::DrawOpacityLayer ==> !action.start_batch && action.close is None
                && action.emit_vertices,
            final(self).batch_type == (if old(self).starts_batch(ev) { ev.quad_type } else { old(self).batch_type }),
            final(self).batch_type_index == (if old(self).starts_batch(ev) {
                type_index_of(ev.quad_type, *offsets)
            } else {
                old(self).batch_type_index
            }),
            final(self).has_batch_entity == (old(self).has_batch_entity || action.spawn_batch),
            final(self).index == old(self).index,
            final(self).item_end == old(self).item_end,
            final(self).item_start == (if action.close is Some { old(self).index } else { old(self).item_start }),
            final(self).old_item_start == (if action.close is Some { old(self).item_end } else { old(self).old_item_start }),
    {
        let mut action = BatchAction {
            set_clip: false,
            store_previous_batch: false,
            close: None,
            bind_image: false,
            bind_font: false,
            bind_opacity_target: false,
            start_batch: false,
            spawn_batch: false,
            emit_vertices: false,
        };
        if !ev.camera_matches {
            return action;
        }
        if ev.quad_type == UIQuadType::OpacityLayer || ev.quad_type == UIQuadType::NoType {
            return action;
        }
        if ev.clip_too_small && ev.quad_type != UIQuadType::Clip {
            return action;
        }
        if ev.quad_type == UIQuadType::Clip {
            action.set_clip = true;
        }
        if (ev.batch_differs || self.batch_type != ev.quad_type) || ev.previous_type == UIQuadType::Clip
            || ev.quad_type == UIQuadType::Clip || ev.quad_type == UIQuadType::DrawOpacityLayer
        {
            if self.has_batch_entity && ev.previous_type != UIQuadType::Clip && ev.previous_type
                != UIQuadType::OpacityLayer {
                action.store_previous_batch = true;
            }
            if self.batch_type != UIQuadType::Clip && self.batch_type != UIQuadType::OpacityLayer
                && ev.previous_type != UIQuadType::Clip && self.has_batch_entity {
                let phase = phase_for(ev.previous_type, ev.previous_opacity_layer);
                let clip = match phase {
                    Phase::Opacity => ClipSource::Current,
                    Phase::Transparent => ClipSource::Last,
                };
                action.close = Some(
                    PhaseItem {
                        phase,
                        clip,
                        quad_type: ev.previous_type,
                        opacity_layer: ev.previous_opacity_layer,
                        type_index: self.batch_type_index,
                        start: self.old_item_start,
                        end: self.item_end,
                    },
                );
                self.item_start = self.index;
                self.old_item_start = self.item_end;
            }
            match ev.image {
                ImageState::Absent => {},
                ImageState::Ready => {
                    action.bind_image = true;
                },
                ImageState::Missing => {
                    return action;
                },
            }
            if ev.font_ready {
                action.bind_font = true;
            }
            if ev.quad_type == UIQuadType::DrawOpacityLayer {
                match ev.opacity_target {
                    OpacityTarget::NoCameraLayer => {},
                    OpacityTarget::Ready => {
                        action.bind_opacity_target = true;
                    },
                    OpacityTarget::Missing => {
                        return action;
                    },
                }
            }
            action.start_batch = true;
            self.batch_type = ev.quad_type;
            self.batch_type_index = ev.quad_type.get_type_index(offsets);
            if self.batch_type != UIQuadType::Clip && self.batch_type != UIQuadType::OpacityLayer {
                action.spawn_batch = true;
                self.has_batch_entity = true;
            }
        }
        if self.batch_type == UIQuadType::Clip {
            return action;
        }
        action.emit_vertices = true;
        action
    }

    /// Appends the vertices of the current quad to the vertex buffer and
    /// counts them. A buffer that holds as many vertices as have been
    /// counted still does afterwards.
    pub fn write_vertices<V>(&mut self, buffer: &mut Vec<V>, vertices: Vec<V>)
        requires
            old(self).wf(),
            old(self).index + vertices.len() <= u32::MAX,
        ensures
            final(self).wf(),
            final(buffer)@ == old(buffer)@ + vertices@,
            final(self).index == old(self).index + vertices.len(),
            final(self).item_end == final(self).index,
            final(self).batch_type == old(self).batch_type,
            final(self).batch_type_index == old(self).batch_type_index,
            final(self).has_batch_entity == old(self).has_batch_entity,
            final(self).item_start == old(self).item_start,
            final(self).old_item_start == old(self).old_item_start,
            old(buffer).len() == old(self).index ==> final(buffer).len() == final(self).index,
    {
        let count = vertices.len() as u32;
        let mut vertices = vertices;
        buffer.append(&mut vertices);
        self.index = self.index + count;
        self.item_end = self.index;
    }

    /// After the last quad of a camera: the current batch, when it is to be
    /// drawn, is stored on its entity and queued as this phase item.
    pub fn finish_view(&self, last_type: UIQuadType, last_opacity_layer: u32, offsets: &QuadTypeOffsets) -> (item: Option<PhaseItem>)
        requires
            self.wf(),
        ensures
            item == (if last_type != UIQuadType::Clip && last_type != UIQuadType::OpacityLayer
                && self.has_batch_entity {
                Some(PhaseItem {
                    phase: phase_of(last_type, last_opacity_layer),
                    clip: ClipSource::Last,
                    quad_type: last_type,
                    opacity_layer: last_opacity_layer,
                    type_index: type_index_of(last_type, *offsets),
                    start: self.old_item_start,
                    end: self.item_end,
                })
            } else {
                None
            }),
            item matches Some(it) ==> it.start <= it.end,
    {
        if last_type != UIQuadType::Clip && last_type != UIQuadType::OpacityLayer && self.has_batch_entity {
            Some(
                PhaseItem {
                    phase: phase_for(last_type, last_opacity_layer),
                    clip: ClipSource::Last,
                    quad_type: last_type,
                    opacity_layer: last_opacity_layer,
                    type_index: last_type.get_type_index(offsets),
                    start: self.old_item_start,
                    end: self.item_end,
                },
            )
        } else {
            None
        }
    }
}

/// A quad ends the current batch whenever the batch it would form differs
/// from it (another image, font, type, type index or depth), whenever its
/// type differs, when it or the quad before it is a clip, and when it draws
/// an opacity layer; a quad of the same batch, type and kind continues the
/// batch. When a quad that is drawn ends a batch and its textures are
/// loaded, a new batch is started with the quad's type; the batch it ends
/// is queued when it has an entity, is drawable and did not follow a clip.
pub proof fn lemma_batch_boundaries(state: BatchState, ev: QuadEvent)
    ensures
        ev.batch_differs ==> state.breaks_batch(ev),
        state.batch_type != ev.quad_type ==> state.breaks_batch(ev),
        ev.previous_type == UIQuadType::Clip ==> state.breaks_batch(ev),
        ev.quad_type == UIQuadType::Clip ==> state.breaks_batch(ev),
        ev.quad_type == UIQuadType::DrawOpacityLayer ==> state.breaks_batch(ev),
        !ev.batch_differs && state.batch_type == ev.quad_type && ev.previous_type != UIQuadType::Clip
            && ev.quad_type != UIQuadType::Clip && ev.quad_type != UIQuadType::DrawOpacityLayer
            ==> !state.breaks_batch(ev),
        ev.camera_matches && ev.quad_type != UIQuadType::OpacityLayer && ev.quad_type != UIQuadType::NoType
            && !ev.clip_too_small && ev.image != ImageState::Missing && ev.opacity_target != OpacityTarget::Missing
            && ev.batch_differs ==> state.starts_batch(ev),
        state.has_batch_entity && state.batch_type != UIQuadType::Clip && state.batch_type
            != UIQuadType::OpacityLayer && ev.previous_type != UIQuadType::Clip ==> state.closes_previous(ev),
        blocked(ev) <==> (ev.image == ImageState::Missing || (ev.quad_type == UIQuadType::DrawOpacityLayer
            && ev.opacity_target == OpacityTarget::Missing)),
        !skips(ev) <==> (ev.camera_matches && ev.quad_type != UIQuadType::OpacityLayer && ev.quad_type
            != UIQuadType::NoType && (!ev.clip_too_small || ev.quad_type == UIQuadType::Clip)),
{
}

} // verus!
