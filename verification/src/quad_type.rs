use vstd::prelude::*;

verus! {

/// The kind of a quad extracted from the UI tree.
#[derive(Debug, Clone, Copy, PartialEq, Eq, Structural, PartialOrd)]
pub enum UIQuadType {
    Quad,
    BoxShadow,
    Text,
    TextSubpixel,
    Image,
    Clip,
    OpacityLayer,
    DrawOpacityLayer,
    NoType,
}

/// Dynamic offsets of the per-type uniform records in the types buffer.
#[derive(Debug, Clone, Copy)]
pub struct QuadTypeOffsets {
    pub quad_type_offset: u32,
    pub text_sub_pixel_type_offset: u32,
    pub text_type_offset: u32,
    pub image_type_offset: u32,
    pub box_shadow_type_offset: u32,
}

/// Type index reported for the quad types that have no uniform record.
pub const CLIP_TYPE_INDEX: u32 = 100000u32;
pub const NONE_TYPE_INDEX: u32 = 100001u32;
pub const OPACITY_LAYER_TYPE_INDEX: u32 = 100002u32;

/// The type index of a quad type under the given buffer offsets.
pub open spec fn type_index_of(ty: UIQuadType, offsets: QuadTypeOffsets) -> u32 {
    match ty {
        UIQuadType::Quad => offsets.quad_type_offset,
        UIQuadType::Text => offsets.text_type_offset,
        UIQuadType::TextSubpixel => offsets.text_sub_pixel_type_offset,
        UIQuadType::Image => offsets.image_type_offset,
        UIQuadType::BoxShadow => offsets.box_shadow_type_offset,
        UIQuadType::Clip => CLIP_TYPE_INDEX,
        UIQuadType::NoType => NONE_TYPE_INDEX,
        UIQuadType::OpacityLayer => OPACITY_LAYER_TYPE_INDEX,
        UIQuadType::DrawOpacityLayer => offsets.image_type_offset,
    }
}

impl UIQuadType {
    pub fn get_type_index(&self, quad_type_offsets: &QuadTypeOffsets) -> (index: u32)
        ensures
            index == type_index_of(*self, *quad_type_offsets),
            *self == UIQuadType::Quad ==> index == quad_type_offsets.quad_type_offset,
            *self == UIQuadType::Text ==> index == quad_type_offsets.text_type_offset,
            *self == UIQuadType::TextSubpixel ==> index == quad_type_offsets.text_sub_pixel_type_offset,
            *self == UIQuadType::Image ==> index == quad_type_offsets.image_type_offset,
            *self == UIQuadType::BoxShadow ==> index == quad_type_offsets.box_shadow_type_offset,
            *self == UIQuadType::DrawOpacityLayer ==> index == quad_type_offsets.image_type_offset,
            *self == UIQuadType::Clip ==> index == 100000,
            *self == UIQuadType::NoType ==> index == 100001,
            *self == UIQuadType::OpacityLayer ==> index == 100002,
    {
        match self {
            UIQuadType::Quad => quad_type_offsets.quad_type_offset,
            UIQuadType::Text => quad_type_offsets.text_type_offset,
            UIQuadType::TextSubpixel => quad_type_offsets.text_sub_pixel_type_offset,
            UIQuadType::Image => quad_type_offsets.image_type_offset,
            UIQuadType::BoxShadow => quad_type_offsets.box_shadow_type_offset,
            UIQuadType::Clip => CLIP_TYPE_INDEX,
            UIQuadType::NoType => NONE_TYPE_INDEX,
            UIQuadType::OpacityLayer => OPACITY_LAYER_TYPE_INDEX,
            UIQuadType::DrawOpacityLayer => quad_type_offsets.image_type_offset,
        }
    }
}

impl Default for QuadTypeOffsets {
    fn default() -> (offsets: Self)
        ensures
            offsets.quad_type_offset == 0,
            offsets.text_sub_pixel_type_offset == 0,
            offsets.text_type_offset == 0,
            offsets.image_type_offset == 0,
            offsets.box_shadow_type_offset == 0,
    {
        QuadTypeOffsets {
            quad_type_offset: 0,
            text_sub_pixel_type_offset: 0,
            text_type_offset: 0,
            image_type_offset: 0,
            box_shadow_type_offset: 0,
        }
    }
}

/// One uniform record of the types buffer: the shader's code for a quad
/// type, padded to 16 bytes.
#[derive(Debug, Clone, Copy, PartialEq, Eq, Structural)]
pub struct QuadType {
    pub t: i32,
    pub _padding_1: i32,
    pub _padding_2: i32,
    pub _padding_3: i32,
}

impl QuadType {
    pub fn new(t: i32) -> (record: Self)
        ensures
            record.t == t,
            record._padding_1 == 0,
            record._padding_2 == 0,
            record._padding_3 == 0,
    {
        QuadType { t, _padding_1: 0, _padding_2: 0, _padding_3: 0 }
    }
}

/// The shader codes of the records of the types buffer, in the order they
/// are pushed: plain quad, subpixel text, text, image, box shadow.
pub open spec fn record_codes() -> Seq<i32> {
    seq![0i32, 1i32, 2i32, 3i32, 4i32]
}

/// The position in the types buffer of the record a quad type is drawn
/// with, for the types that have one.
pub open spec fn record_position(ty: UIQuadType) -> Option<int> {
    match ty {
        UIQuadType::Quad => Some(0),
        UIQuadType::TextSubpixel => Some(1),
        UIQuadType::Text => Some(2),
        UIQuadType::Image => Some(3),
        UIQuadType::DrawOpacityLayer => Some(3),
        UIQuadType::BoxShadow => Some(4),
        _ => None,
    }
}

/// The records to push to the types buffer, in order.
pub fn type_records() -> (records: Vec<QuadType>)
    ensures
        records.len() == record_codes().len(),
        forall|k: int|
            0 <= k < records.len() ==> #[trigger] records[k].t == record_codes()[k] && records[k]._padding_1 == 0
                && records[k]._padding_2 == 0 && records[k]._padding_3 == 0,
{
    let mut records: Vec<QuadType> = Vec::new();
    let mut code: i32 = 0;
    while code < 5
        invariant
            0 <= code <= 5,
            records.len() == code,
            forall|k: int|
                0 <= k < records.len() ==> #[trigger] records[k].t == k && records[k]._padding_1 == 0
                    && records[k]._padding_2 == 0 && records[k]._padding_3 == 0,
        decreases 5 - code,
    {
        records.push(QuadType::new(code));
        code = code + 1;
    }
    records
}

/// The offsets that the records were stored at, in push order.
pub open spec fn offsets_from(offsets: Seq<u32>) -> QuadTypeOffsets {
    QuadTypeOffsets {
        quad_type_offset: offsets[0],
        text_sub_pixel_type_offset: offsets[1],
        text_type_offset: offsets[2],
        image_type_offset: offsets[3],
        box_shadow_type_offset: offsets[4],
    }
}

impl QuadTypeOffsets {
    /// The offsets of the quad types, from the offsets the buffer returned
    /// for the records of `type_records`, in push order.
    pub fn from_record_offsets(offsets: &Vec<u32>) -> (type_offsets: Self)
        requires
            offsets.len() == 5,
        ensures
            type_offsets == offsets_from(offsets@),
            type_offsets.quad_type_offset == offsets@[0],
            type_offsets.text_sub_pixel_type_offset == offsets@[1],
            type_offsets.text_type_offset == offsets@[2],
            type_offsets.image_type_offset == offsets@[3],
            type_offsets.box_shadow_type_offset == offsets@[4],
    {
        QuadTypeOffsets {
            quad_type_offset: offsets[0],
            text_sub_pixel_type_offset: offsets[1],
            text_type_offset: offsets[2],
            image_type_offset: offsets[3],
            box_shadow_type_offset: offsets[4],
        }
    }
}

/// A quad type that is drawn with a uniform record gets, as its type index,
/// the buffer offset of the record that carries its shader code.
pub proof fn lemma_type_index_names_own_record(ty: UIQuadType, offsets: Seq<u32>)
    requires
        offsets.len() == 5,
        record_position(ty) is Some,
    ensures
        type_index_of(ty, offsets_from(offsets)) == offsets[record_position(ty)->0],
        0 <= record_position(ty)->0 < record_codes().len(),
        record_codes()[record_position(ty)->0] == record_position(ty)->0,
{
}

/// The three types without a record get three distinct type indices.
pub proof fn lemma_recordless_indices_distinct(offsets: QuadTypeOffsets)
    ensures
        type_index_of(UIQuadType::Clip, offsets) != type_index_of(UIQuadType::NoType, offsets),
        type_index_of(UIQuadType::Clip, offsets) != type_index_of(UIQuadType::OpacityLayer, offsets),
        type_index_of(UIQuadType::NoType, offsets) != type_index_of(UIQuadType::OpacityLayer, offsets),
{
}

/// Each quad type that has a record is drawn with the offset stored in the
/// field named for it, and that field holds the offset at which the record
/// with the type's shader code was pushed: plain quads code 0, subpixel text
/// code 1, text code 2, images (and drawn opacity layers) code 3, box
/// shadows code 4.
pub proof fn lemma_type_index_by_shader_code(offsets: Seq<u32>)
    requires
        offsets.len() == 5,
    ensures
        type_index_of(UIQuadType::Quad, offsets_from(offsets)) == offsets[0] && record_codes()[0] == 0,
        type_index_of(UIQuadType::TextSubpixel, offsets_from(offsets)) == offsets[1] && record_codes()[1] == 1,
        type_index_of(UIQuadType::Text, offsets_from(offsets)) == offsets[2] && record_codes()[2] == 2,
        type_index_of(UIQuadType::Image, offsets_from(offsets)) == offsets[3] && record_codes()[3] == 3,
        type_index_of(UIQuadType::DrawOpacityLayer, offsets_from(offsets)) == offsets[3],
        type_index_of(UIQuadType::BoxShadow, offsets_from(offsets)) == offsets[4] && record_codes()[4] == 4,
        offsets_from(offsets).text_type_offset == offsets[2],
        offsets_from(offsets).text_sub_pixel_type_offset == offsets[1],
{
}

} // verus!
