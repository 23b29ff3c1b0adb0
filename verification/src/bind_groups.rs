use vstd::prelude::*;

verus! {

/// The kind of resource a binding of a bind group layout takes.
#[derive(Debug, Clone, Copy, PartialEq, Eq, Structural)]
pub enum BindingKind {
    /// A filterable float texture viewed as a single 2D image.
    Texture2d,
    /// A filterable float texture viewed as an array of 2D layers.
    Texture2dArray,
    /// A filtering sampler.
    Sampler,
}

/// One binding of the image bind group layout.
#[derive(Debug, Clone, Copy, PartialEq, Eq, Structural)]
pub struct LayoutBinding {
    pub binding: u32,
    pub kind: BindingKind,
}

/// The GPU images an image bind group can be made from.
#[derive(Debug, Clone, Copy, PartialEq, Eq, Structural)]
pub enum TextureSlot {
    /// The image of a quad.
    QuadImage,
    /// The render target of an opacity layer.
    OpacityTarget,
    /// The pipeline's 1x1 default image.
    DefaultImage,
    /// The atlas of a font.
    FontAtlas,
    /// The pipeline's empty font atlas.
    EmptyFontAtlas,
}

/// The bind groups made against the image layout.
#[derive(Debug, Clone, Copy, PartialEq, Eq, Structural)]
pub enum ImageGroup {
    /// The pipeline's default group.
    Default,
    /// The group of a quad's image.
    QuadImage,
    /// The group of a font atlas.
    Font,
    /// The group of an opacity layer's render target.
    OpacityLayer,
}

/// A resource of a bind group entry: the view or the sampler of an image.
#[derive(Debug, Clone, Copy, PartialEq, Eq, Structural)]
pub enum EntryResource {
    View(TextureSlot),
    Sampler(TextureSlot),
}

/// One entry of an image bind group.
#[derive(Debug, Clone, Copy, PartialEq, Eq, Structural)]
pub struct GroupEntry {
    pub binding: u32,
    pub resource: EntryResource,
}

/// How an image is viewed: font atlases are arrays of glyph layers, the
/// other images single 2D images.
pub open spec fn slot_kind(slot: TextureSlot) -> BindingKind {
    match slot {
        TextureSlot::FontAtlas | TextureSlot::EmptyFontAtlas => BindingKind::Texture2dArray,
        _ => BindingKind::Texture2d,
    }
}

/// The kind of binding a group entry's resource fits.
pub open spec fn resource_kind(resource: EntryResource) -> BindingKind {
    match resource {
        EntryResource::View(slot) => slot_kind(slot),
        EntryResource::Sampler(_) => BindingKind::Sampler,
    }
}

/// The bindings of the image layout.
pub open spec fn image_layout_bindings() -> Seq<LayoutBinding> {
    seq![
        LayoutBinding { binding: 0, kind: BindingKind::Texture2d },
        LayoutBinding { binding: 1, kind: BindingKind::Sampler },
        LayoutBinding { binding: 2, kind: BindingKind::Texture2dArray },
        LayoutBinding { binding: 3, kind: BindingKind::Sampler },
    ]
}

/// The layout shared by all image bind groups: an image and its sampler,
/// then a font atlas and its sampler, all seen by the fragment stage.
pub fn image_layout() -> (bindings: Vec<LayoutBinding>)
    ensures
        bindings@ == image_layout_bindings(),
{
    vec![
        LayoutBinding { binding: 0, kind: BindingKind::Texture2d },
        LayoutBinding { binding: 1, kind: BindingKind::Sampler },
        LayoutBinding { binding: 2, kind: BindingKind::Texture2dArray },
        LayoutBinding { binding: 3, kind: BindingKind::Sampler },
    ]
}

/// The image and the font atlas a group is made from.
pub open spec fn group_slots(group: ImageGroup) -> (TextureSlot, TextureSlot) {
    match group {
        ImageGroup::Default => (TextureSlot::DefaultImage, TextureSlot::EmptyFontAtlas),
        ImageGroup::QuadImage => (TextureSlot::QuadImage, TextureSlot::EmptyFontAtlas),
        ImageGroup::Font => (TextureSlot::DefaultImage, TextureSlot::FontAtlas),
        ImageGroup::OpacityLayer => (TextureSlot::OpacityTarget, TextureSlot::EmptyFontAtlas),
    }
}

/// The entries of a group, as `group_entries` makes them.
pub open spec fn group_entry_list(group: ImageGroup) -> Seq<GroupEntry> {
    seq![
        GroupEntry { binding: 0, resource: EntryResource::View(group_slots(group).0) },
        GroupEntry { binding: 1, resource: EntryResource::Sampler(group_slots(group).0) },
        GroupEntry { binding: 2, resource: EntryResource::View(group_slots(group).1) },
        GroupEntry { binding: 3, resource: EntryResource::Sampler(group_slots(group).1) },
    ]
}

/// The entries of a group: the view and sampler of its image at bindings 0
/// and 1, those of its font atlas at bindings 2 and 3.
pub fn group_entries(group: ImageGroup) -> (entries: Vec<GroupEntry>)
    ensures
        entries@ == group_entry_list(group),
        entries@.len() == 4,
        forall|k: int| 0 <= k < 4 ==> #[trigger] entries@[k].binding == k,
        group == ImageGroup::QuadImage ==> entries@[0].resource == EntryResource::View(TextureSlot::QuadImage)
            && entries@[1].resource == EntryResource::Sampler(TextureSlot::QuadImage)
            && entries@[2].resource == EntryResource::View(TextureSlot::EmptyFontAtlas)
            && entries@[3].resource == EntryResource::Sampler(TextureSlot::EmptyFontAtlas),
        group == ImageGroup::Font ==> entries@[0].resource == EntryResource::View(TextureSlot::DefaultImage)
            && entries@[1].resource == EntryResource::Sampler(TextureSlot::DefaultImage)
            && entries@[2].resource == EntryResource::View(TextureSlot::FontAtlas)
            && entries@[3].resource == EntryResource::Sampler(TextureSlot::FontAtlas),
        group == ImageGroup::OpacityLayer ==> entries@[0].resource == EntryResource::View(TextureSlot::OpacityTarget)
            && entries@[1].resource == EntryResource::Sampler(TextureSlot::OpacityTarget)
            && entries@[2].resource == EntryResource::View(TextureSlot::EmptyFontAtlas)
            && entries@[3].resource == EntryResource::Sampler(TextureSlot::EmptyFontAtlas),
        group == ImageGroup::Default ==> entries@[0].resource == EntryResource::View(TextureSlot::DefaultImage)
            && entries@[1].resource == EntryResource::Sampler(TextureSlot::DefaultImage)
            && entries@[2].resource == EntryResource::View(TextureSlot::EmptyFontAtlas)
            && entries@[3].resource == EntryResource::Sampler(TextureSlot::EmptyFontAtlas),
{
    let (image, font) = match group {
        ImageGroup::Default => (TextureSlot::DefaultImage, TextureSlot::EmptyFontAtlas),
        ImageGroup::QuadImage => (TextureSlot::QuadImage, TextureSlot::EmptyFontAtlas),
        ImageGroup::Font => (TextureSlot::DefaultImage, TextureSlot::FontAtlas),
        ImageGroup::OpacityLayer => (TextureSlot::OpacityTarget, TextureSlot::EmptyFontAtlas),
    };
    vec![
        GroupEntry { binding: 0, resource: EntryResource::View(image) },
        GroupEntry { binding: 1, resource: EntryResource::Sampler(image) },
        GroupEntry { binding: 2, resource: EntryResource::View(font) },
        GroupEntry { binding: 3, resource: EntryResource::Sampler(font) },
    ]
}

/// Every image bind group fits the image layout: entry `k` sits at the
/// layout's `k`-th binding and supplies the kind of resource it declares.
pub proof fn lemma_groups_fit_layout(group: ImageGroup)
    ensures
        group_entry_list(group).len() == image_layout_bindings().len(),
        forall|k: int|
            0 <= k < group_entry_list(group).len() ==> #[trigger] group_entry_list(group)[k].binding
                == image_layout_bindings()[k].binding && resource_kind(group_entry_list(group)[k].resource)
                == image_layout_bindings()[k].kind,
{
    let entries = group_entry_list(group);
    let layout = image_layout_bindings();
    assert forall|k: int| 0 <= k < entries.len() implies #[trigger] entries[k].binding == layout[k].binding
        && resource_kind(entries[k].resource) == layout[k].kind by {
        if k == 0 {
        } else if k == 1 {
        } else if k == 2 {
        } else {
        }
    }
}

/// Each group binds the texture it is made for: a quad's image group shows
/// that image, an opacity layer's group its render target, a font's group
/// its atlas (next to the default image); only the default group shows the
/// default image alone. Every image group shows its image at bindings 0
/// and 1, and a font atlas (the empty one unless it is a font's group) at
/// 2 and 3.
pub proof fn lemma_groups_bind_their_texture(group: ImageGroup)
    ensures
        group_entry_list(group)[0].resource == EntryResource::View(group_slots(group).0),
        group_entry_list(group)[1].resource == EntryResource::Sampler(group_slots(group).0),
        group_entry_list(group)[2].resource == EntryResource::View(group_slots(group).1),
        group_entry_list(group)[3].resource == EntryResource::Sampler(group_slots(group).1),
        group == ImageGroup::QuadImage ==> group_slots(group) == (TextureSlot::QuadImage, TextureSlot::EmptyFontAtlas),
        group == ImageGroup::OpacityLayer ==> group_slots(group) == (TextureSlot::OpacityTarget, TextureSlot::EmptyFontAtlas),
        group == ImageGroup::Font ==> group_slots(group) == (TextureSlot::DefaultImage, TextureSlot::FontAtlas),
        group == ImageGroup::Default ==> group_slots(group) == (TextureSlot::DefaultImage, TextureSlot::EmptyFontAtlas),
        group_slots(group).0 == TextureSlot::DefaultImage ==> group == ImageGroup::Default || group == ImageGroup::Font,
{
}

} // verus!
