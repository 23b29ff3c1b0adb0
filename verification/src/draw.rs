use vstd::prelude::*;
use std::marker::PhantomData;

verus! {

/// Render command that binds the view bind group at group index `I`.
pub struct SetUIViewBindGroup<T, const I: usize> {
    phantom: PhantomData<T>,
}

impl<T, const I: usize> SetUIViewBindGroup<T, I> {
    pub fn new() -> (command: Self) {
        SetUIViewBindGroup { phantom: PhantomData }
    }
}

/// Render command that draws one batch of UI quads.
pub struct DrawUIDraw<T> {
    phantom: PhantomData<T>,
}

/// A scissor rectangle in window pixels.
#[derive(Debug, Clone, Copy, PartialEq, Eq, Structural)]
pub struct ScissorRect {
    pub x: u32,
    pub y: u32,
    pub width: u32,
    pub height: u32,
}

/// Which bind group supplies the textures of a batch.
#[derive(Debug, Clone, Copy, PartialEq, Eq, Structural)]
pub enum TextureSource {
    /// The bind group made for the batch's image.
    Image,
    /// The bind group made for the batch's font atlas.
    Font,
    /// The pipeline's default (empty) image.
    Default,
}

pub open spec fn min_u32(a: u32, b: u32) -> u32 {
    if a <= b {
        a
    } else {
        b
    }
}

/// A scissor rectangle is set when the clipped size is not empty and the
/// origin lies in the window.
pub open spec fn scissor_applies(x: u32, y: u32, width: u32, height: u32, window_width: u32, window_height: u32) -> bool {
    &&& min_u32(width, window_width) != 0
    &&& min_u32(height, window_height) != 0
    &&& x <= window_width
    &&& y <= window_height
}

impl<T> DrawUIDraw<T> {
    pub fn new() -> (command: Self) {
        DrawUIDraw { phantom: PhantomData }
    }

    /// The scissor rectangle for a batch clipped to the rectangle at (`x`,
    /// `y`) of size `width` x `height`, in a window of the given size: the
    /// size is cut to the window; nothing is set when the cut size is empty
    /// or the origin is outside the window.
    pub fn scissor_rect(
        x: u32,
        y: u32,
        width: u32,
        height: u32,
        window_width: u32,
        window_height: u32,
    ) -> (rect: Option<ScissorRect>)
        requires
            scissor_applies(x, y, width, height, window_width, window_height) ==> x + min_u32(width, window_width)
                <= u32::MAX && y + min_u32(height, window_height) <= u32::MAX,
        ensures
            rect == (if scissor_applies(x, y, width, height, window_width, window_height) {
                Some(ScissorRect {
                    x,
                    y,
                    width: if x + min_u32(width, window_width) >= window_width {
                        (window_width - x) as u32
                    } else {
                        min_u32(width, window_width)
                    },
                    height: if y + min_u32(height, window_height) >= window_height {
                        (window_height - y) as u32
                    } else {
                        min_u32(height, window_height)
                    },
                })
            } else {
                None
            }),
            rect matches Some(r) ==> r.x + r.width <= window_width && r.y + r.height <= window_height,
    {
        let mut width = if width <= window_width {
            width
        } else {
            window_width
        };
        let mut height = if height <= window_height {
            height
        } else {
            window_height
        };
        if !(width == 0 || height == 0 || x > window_width || y > window_height) {
            if x + width >= window_width {
                width = window_width - x;
            }
            if y + height >= window_height {
                height = window_height - y;
            }
            Some(ScissorRect { x, y, width, height })
        } else {
            None
        }
    }

    /// The texture bind group of a batch: its image's group when it has an
    /// image (the default image when that group is missing), else its font
    /// atlas's group when there is one, else the default image.
    pub fn texture_source(has_image: bool, image_group_found: bool, font_group_found: bool) -> (source: TextureSource)
        ensures
            source == (if has_image {
                if image_group_found {
                    TextureSource::Image
                } else {
                    TextureSource::Default
                }
            } else if font_group_found {
                TextureSource::Font
            } else {
                TextureSource::Default
            }),
    {
        if has_image {
            if image_group_found {
                TextureSource::Image
            } else {
                TextureSource::Default
            }
        } else if font_group_found {
            TextureSource::Font
        } else {
            TextureSource::Default
        }
    }
}

} // verus!
