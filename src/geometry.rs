use vstd::prelude::*;

verus! {

/// Bytes in one 32-bit float vertex component.
pub const FLOAT_BYTES: i32 = 4;

/// The indices of the cube's 12 triangles, two per face, over its 8 corners.
pub open spec fn cube_index_seq() -> Seq<u32> {
    seq![
        0u32, 1, 2, 2, 3, 0,  // front
        4, 5, 6, 6, 7, 4,  // back
        0, 4, 7, 7, 3, 0,  // left
        1, 5, 6, 6, 2, 1,  // right
        3, 2, 6, 6, 7, 3,  // top
        0, 1, 5, 5, 4, 0,  // bottom
    ]
}

/// The indices of the cross-section quad's 2 triangles over its 4 corners.
pub open spec fn quad_index_seq() -> Seq<u32> {
    seq![0u32, 1, 2, 2, 3, 0]
}

/// The index buffer of the cube.
pub fn cube_indices() -> (r: Vec<u32>)
    ensures
        r@ == cube_index_seq(),
        r@.len() == 36,
        forall|i: int| 0 <= i < r@.len() ==> r@[i] < 8,
{
    let r: Vec<u32> = vec![
        0, 1, 2, 2, 3, 0,
        4, 5, 6, 6, 7, 4,
        0, 4, 7, 7, 3, 0,
        1, 5, 6, 6, 2, 1,
        3, 2, 6, 6, 7, 3,
        0, 1, 5, 5, 4, 0,
    ];
    assert(r@ =~= cube_index_seq());
    r
}

/// The index buffer of the cross-section quad.
pub fn quad_indices() -> (r: Vec<u32>)
    ensures
        r@ == quad_index_seq(),
        r@.len() == 6,
        forall|i: int| 0 <= i < r@.len() ==> r@[i] < 4,
{
    let r: Vec<u32> = vec![0, 1, 2, 2, 3, 0];
    assert(r@ =~= quad_index_seq());
    r
}

/// A corner of the unit cube centred on the origin. Each coordinate is a
/// sign: the corner lies at `(x / 2, y / 2, z / 2)`. Its colour channels are
/// 0 or 1 and only tell the corners apart.
#[derive(Clone, Copy, Debug, PartialEq, Eq, Structural)]
pub struct CubeCorner {
    pub x: i8,
    pub y: i8,
    pub z: i8,
    pub r: u8,
    pub g: u8,
    pub b: u8,
}

pub open spec fn corner(x: int, y: int, z: int, r: u8, g: u8, b: u8) -> CubeCorner {
    CubeCorner { x: x as i8, y: y as i8, z: z as i8, r, g, b }
}

/// The cube's vertex data: the front face, then the back face, each from
/// bottom left counter-clockwise.
pub open spec fn cube_corner_seq() -> Seq<CubeCorner> {
    seq![
        corner(-1, -1, 1, 0, 1, 0),
        corner(1, -1, 1, 0, 1, 1),
        corner(1, 1, 1, 1, 1, 1),
        corner(-1, 1, 1, 1, 1, 0),
        corner(-1, -1, -1, 0, 0, 0),
        corner(1, -1, -1, 0, 0, 1),
        corner(1, 1, -1, 1, 0, 1),
        corner(-1, 1, -1, 1, 0, 0),
    ]
}

/// The cube's 8 corners, in vertex-buffer order. Every coordinate is a sign
/// and every colour channel 0 or 1.
pub fn cube_corners() -> (r: Vec<CubeCorner>)
    ensures
        r@ == cube_corner_seq(),
        r@.len() == 8,
        forall|i: int|
            0 <= i < r@.len() ==> {
                &&& (r@[i].x == 1 || r@[i].x == -1)
                &&& (r@[i].y == 1 || r@[i].y == -1)
                &&& (r@[i].z == 1 || r@[i].z == -1)
                &&& r@[i].r <= 1 && r@[i].g <= 1 && r@[i].b <= 1
            },
{
    let r: Vec<CubeCorner> = vec![
        CubeCorner { x: -1, y: -1, z: 1, r: 0, g: 1, b: 0 },
        CubeCorner { x: 1, y: -1, z: 1, r: 0, g: 1, b: 1 },
        CubeCorner { x: 1, y: 1, z: 1, r: 1, g: 1, b: 1 },
        CubeCorner { x: -1, y: 1, z: 1, r: 1, g: 1, b: 0 },
        CubeCorner { x: -1, y: -1, z: -1, r: 0, g: 0, b: 0 },
        CubeCorner { x: 1, y: -1, z: -1, r: 0, g: 0, b: 1 },
        CubeCorner { x: 1, y: 1, z: -1, r: 1, g: 0, b: 1 },
        CubeCorner { x: -1, y: 1, z: -1, r: 1, g: 0, b: 0 },
    ];
    assert(r@ =~= cube_corner_seq());
    r
}

/// A corner of the cross-section quad: a 2D position given as signs (the
/// corner lies at `(x / 2, y / 2)`) and a colour of channels 0 or 1, which
/// the cross-section shader passes through the model rotation.
#[derive(Clone, Copy, Debug, PartialEq, Eq, Structural)]
pub struct QuadCorner {
    pub x: i8,
    pub y: i8,
    pub r: u8,
    pub g: u8,
    pub b: u8,
}

pub open spec fn quad_corner(x: int, y: int, r: u8, g: u8, b: u8) -> QuadCorner {
    QuadCorner { x: x as i8, y: y as i8, r, g, b }
}

/// The quad's vertex data, from bottom left counter-clockwise.
pub open spec fn quad_corner_seq() -> Seq<QuadCorner> {
    seq![
        quad_corner(-1, -1, 0, 1, 0),
        quad_corner(1, -1, 0, 1, 1),
        quad_corner(1, 1, 1, 1, 1),
        quad_corner(-1, 1, 1, 1, 0),
    ]
}

/// The cross-section quad's 4 corners, in vertex-buffer order.
pub fn quad_corners() -> (r: Vec<QuadCorner>)
    ensures
        r@ == quad_corner_seq(),
        r@.len() == 4,
{
    let r: Vec<QuadCorner> = vec![
        QuadCorner { x: -1, y: -1, r: 0, g: 1, b: 0 },
        QuadCorner { x: 1, y: -1, r: 0, g: 1, b: 1 },
        QuadCorner { x: 1, y: 1, r: 1, g: 1, b: 1 },
        QuadCorner { x: -1, y: 1, r: 1, g: 1, b: 0 },
    ];
    assert(r@ =~= quad_corner_seq());
    r
}

/// Where one vertex attribute lies in an interleaved buffer of floats.
#[derive(Clone, Copy, Debug, PartialEq, Eq, Structural)]
pub struct AttributeLayout {
    /// Floats per vertex in this attribute.
    pub components: i32,
    /// Bytes from one vertex to the next.
    pub stride: i32,
    /// Bytes from the start of a vertex to this attribute.
    pub offset: i32,
}

/// The layouts of two attributes that follow each other in every vertex:
/// `first` floats, then `second` floats, with nothing between or after.
pub open spec fn interleaved(first: i32, second: i32) -> (AttributeLayout, AttributeLayout) {
    let stride = (FLOAT_BYTES * (first + second)) as i32;
    (
        AttributeLayout { components: first, stride, offset: 0 },
        AttributeLayout { components: second, stride, offset: (FLOAT_BYTES * first) as i32 },
    )
}

/// Position (3 floats) then colour (3 floats): a stride of 24 bytes, colour
/// at byte 12.
pub fn cube_attribute_layouts() -> (r: (AttributeLayout, AttributeLayout))
    ensures
        r == interleaved(3, 3),
        r.0.stride == 24 && r.1.stride == 24,
        r.0.offset == 0 && r.1.offset == 12,
{
    let stride: i32 = FLOAT_BYTES * (3 + 3);
    (
        AttributeLayout { components: 3, stride, offset: 0 },
        AttributeLayout { components: 3, stride, offset: FLOAT_BYTES * 3 },
    )
}

/// Position (2 floats) then colour (3 floats): a stride of 20 bytes, colour
/// at byte 8.
pub fn quad_attribute_layouts() -> (r: (AttributeLayout, AttributeLayout))
    ensures
        r == interleaved(2, 3),
        r.0.stride == 20 && r.1.stride == 20,
        r.0.offset == 0 && r.1.offset == 8,
{
    let stride: i32 = FLOAT_BYTES * (2 + 3);
    (
        AttributeLayout { components: 2, stride, offset: 0 },
        AttributeLayout { components: 3, stride, offset: FLOAT_BYTES * 2 },
    )
}

/// An indexed draw of a triangle list, from the start of the index buffer.
#[derive(Clone, Copy, Debug, PartialEq, Eq, Structural)]
pub struct DrawCall {
    pub index_count: i32,
}

/// The draw of the whole cube: all of its index buffer.
pub fn cube_draw() -> (r: DrawCall)
    ensures
        r.index_count == cube_index_seq().len(),
        r.index_count == 36,
{
    DrawCall { index_count: 36 }
}

/// The draw of the cross-section quad: all of its index buffer.
pub fn quad_draw() -> (r: DrawCall)
    ensures
        r.index_count == quad_index_seq().len(),
        r.index_count == 6,
{
    DrawCall { index_count: 6 }
}

/// The cube's index buffer holds 12 triangles, every index in it names one
/// of the cube's corners, and no two corners share a position or a colour.
pub proof fn cube_geometry_is_consistent()
    ensures
        cube_index_seq().len() == 3 * 12,
        forall|i: int| 0 <= i < cube_index_seq().len() ==> cube_index_seq()[i] < cube_corner_seq().len(),
        forall|i: int, j: int|
            0 <= i < j < 8 ==> {
                let a = #[trigger] cube_corner_seq()[i];
                let b = #[trigger] cube_corner_seq()[j];
                &&& (a.x, a.y, a.z) != (b.x, b.y, b.z)
                &&& (a.r, a.g, a.b) != (b.r, b.g, b.b)
            },
{
    assert(cube_index_seq().len() == 36);
}

} // verus!
