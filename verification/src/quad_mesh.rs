use vstd::prelude::*;

verus! {

/// A corner of the uv rectangle of a quad: `Bottom` is the minimum v,
/// `Top` the maximum v, `Left` the minimum u, `Right` the maximum u.
#[derive(Debug, Clone, Copy, PartialEq, Eq, Structural)]
pub enum UvCorner {
    BottomLeft,
    TopLeft,
    TopRight,
    BottomRight,
}

/// Corner `k` of the unit square, counter-clockwise from the origin:
/// (0, 0), (1, 0), (1, 1), (0, 1).
pub open spec fn unit_corner(k: int) -> (int, int) {
    if k == 0 {
        (0, 0)
    } else if k == 1 {
        (1, 0)
    } else if k == 2 {
        (1, 1)
    } else {
        (0, 1)
    }
}

/// The corner of the unit square each of the six vertices of a quad's two
/// triangles sits at.
pub open spec fn quad_indices() -> Seq<usize> {
    seq![0usize, 2usize, 3usize, 0usize, 1usize, 2usize]
}

/// The uv corner each of the six vertices is given.
pub open spec fn uv_corners() -> Seq<UvCorner> {
    seq![
        UvCorner::TopLeft,
        UvCorner::BottomRight,
        UvCorner::BottomLeft,
        UvCorner::TopLeft,
        UvCorner::TopRight,
        UvCorner::BottomRight,
    ]
}

/// The u side (0 = minimum, 1 = maximum) and v side of a uv corner.
pub open spec fn uv_sides(c: UvCorner) -> (int, int) {
    match c {
        UvCorner::BottomLeft => (0, 0),
        UvCorner::TopLeft => (0, 1),
        UvCorner::TopRight => (1, 1),
        UvCorner::BottomRight => (1, 0),
    }
}

/// Number of vertices written for a plain quad.
pub const QUAD_VERTEX_COUNT: usize = 6usize;

/// The unit-square corner of vertex `vertex` of a plain quad.
pub fn quad_index(vertex: usize) -> (corner: usize)
    requires
        vertex < QUAD_VERTEX_COUNT,
    ensures
        corner == quad_indices()[vertex as int],
        corner < 4,
{
    let indices: [usize; 6] = [0, 2, 3, 0, 1, 2];
    indices[vertex]
}

/// The position of corner `corner` of the unit square.
pub fn quad_vertex_position(corner: usize) -> (position: (u8, u8))
    requires
        corner < 4,
    ensures
        position.0 == unit_corner(corner as int).0,
        position.1 == unit_corner(corner as int).1,
{
    if corner == 0 {
        (0, 0)
    } else if corner == 1 {
        (1, 0)
    } else if corner == 2 {
        (1, 1)
    } else {
        (0, 1)
    }
}

/// The uv corner of vertex `vertex` of a plain quad.
pub fn uv_corner(vertex: usize) -> (corner: UvCorner)
    requires
        vertex < QUAD_VERTEX_COUNT,
    ensures
        corner == uv_corners()[vertex as int],
{
    let corners: [UvCorner; 6] = [
        UvCorner::TopLeft,
        UvCorner::BottomRight,
        UvCorner::BottomLeft,
        UvCorner::TopLeft,
        UvCorner::TopRight,
        UvCorner::BottomRight,
    ];
    corners[vertex]
}

/// The texture is mapped without mirroring: every vertex takes the u side of
/// its x position and the v side opposite its y position (the image's rows
/// run top-down while positions run bottom-up).
pub proof fn lemma_uv_follows_position(vertex: int)
    requires
        0 <= vertex < 6,
    ensures
        uv_sides(uv_corners()[vertex]).0 == unit_corner(quad_indices()[vertex] as int).0,
        uv_sides(uv_corners()[vertex]).1 == 1 - unit_corner(quad_indices()[vertex] as int).1,
{
}

/// The two triangles of a quad each have three distinct corners, and
/// together they use all four corners of the square.
pub proof fn lemma_triangles_cover_square()
    ensures
        quad_indices().subrange(0, 3).no_duplicates(),
        quad_indices().subrange(3, 6).no_duplicates(),
        forall|k: usize| k < 4 ==> #[trigger] quad_indices().contains(k),
{
    assert(quad_indices().subrange(0, 3) =~= seq![0usize, 2usize, 3usize]);
    assert(quad_indices().subrange(3, 6) =~= seq![0usize, 1usize, 2usize]);
    assert(quad_indices()[4] == 1usize);
    assert(quad_indices()[1] == 2usize);
    assert(quad_indices()[2] == 3usize);
    assert(quad_indices()[0] == 0usize);
}

} // verus!
