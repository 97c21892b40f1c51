//! The fixed geometry the renderer uploads once at initialization: the
//! four corner points of an axis-aligned square with corners at (±1, ±1),
//! and the six byte-sized indices that draw it as two triangles sharing
//! the diagonal between corners 0 and 2.
//!
//! Coordinates are carried as the exact integers −1 and 1; the graphics
//! code converts them to the float format its vertex buffer wants.

use vstd::prelude::*;

verus! {

/// The vertex buffer contents: four corners, interleaved x then y,
/// in counter-clockwise order starting at the lower-left corner.
pub open spec fn vertex_data() -> Seq<i8> {
    seq![-1i8, -1i8, 1i8, -1i8, 1i8, 1i8, -1i8, 1i8]
}

/// The index buffer contents: two triangles, (0, 1, 2) and (2, 3, 0).
pub open spec fn index_data() -> Seq<u8> {
    seq![0u8, 1u8, 2u8, 2u8, 3u8, 0u8]
}

/// Corner `k` of the vertex data, as a coordinate pair.
pub open spec fn corner(k: int) -> (int, int) {
    (vertex_data()[2 * k] as int, vertex_data()[2 * k + 1] as int)
}

/// The three corner numbers of the first triangle the indices name.
pub open spec fn first_triangle() -> Set<int> {
    set![index_data()[0] as int, index_data()[1] as int, index_data()[2] as int]
}

/// The three corner numbers of the second triangle the indices name.
pub open spec fn second_triangle() -> Set<int> {
    set![index_data()[3] as int, index_data()[4] as int, index_data()[5] as int]
}

/// Build the vertex buffer: always exactly the four corner points of the
/// square, eight interleaved coordinates.
pub fn square_vertices() -> (v: Vec<i8>)
    ensures
        v@ == vertex_data(),
{
    let mut v: Vec<i8> = Vec::new();
    v.push(-1);
    v.push(-1);
    v.push(1);
    v.push(-1);
    v.push(1);
    v.push(1);
    v.push(-1);
    v.push(1);
    proof {
        assert(v@ =~= vertex_data());
    }
    v
}

/// Build the index buffer: always exactly the six indices that draw the
/// square as two triangles.
pub fn square_indices() -> (v: Vec<u8>)
    ensures
        v@ == index_data(),
{
    let mut v: Vec<u8> = Vec::new();
    v.push(0);
    v.push(1);
    v.push(2);
    v.push(2);
    v.push(3);
    v.push(0);
    proof {
        assert(v@ =~= index_data());
    }
    v
}

/// The geometry law. The vertex data holds exactly the four corners of
/// the square — every sign combination of (±1, ±1) once — and the index
/// data names only those corners, covers all four with its two
/// triangles, and the triangles share exactly the corners 0 and 2: the
/// diagonal between two opposite corners.
pub proof fn lemma_square_geometry()
    ensures
        vertex_data().len() == 8,
        corner(0) == (-1int, -1int),
        corner(1) == (1int, -1int),
        corner(2) == (1int, 1int),
        corner(3) == (-1int, 1int),
        corner(0).0 == -corner(2).0 && corner(0).1 == -corner(2).1,
        index_data().len() == 6,
        forall|i: int| 0 <= i < 6 ==> 0 <= #[trigger] index_data()[i] < 4,
        first_triangle() == set![0int, 1int, 2int],
        second_triangle() == set![2int, 3int, 0int],
        first_triangle().union(second_triangle()) =~= set![0int, 1int, 2int, 3int],
        first_triangle().intersect(second_triangle()) =~= set![0int, 2int],
{
    assert forall|i: int| 0 <= i < 6 implies 0 <= #[trigger] index_data()[i] < 4 by {
        if i == 0 {
            assert(index_data()[0] == 0);
        } else if i == 1 {
            assert(index_data()[1] == 1);
        } else if i == 2 {
            assert(index_data()[2] == 2);
        } else if i == 3 {
            assert(index_data()[3] == 2);
        } else if i == 4 {
            assert(index_data()[4] == 3);
        } else {
            assert(index_data()[5] == 0);
        }
    }
    assert(first_triangle().union(second_triangle()) =~= set![0int, 1int, 2int, 3int]);
    assert(first_triangle().intersect(second_triangle()) =~= set![0int, 2int]);
}

/// The version directive prefixed to both shader sources: the embedded
/// dialect on web targets, the desktop dialect elsewhere.
pub fn shader_version_directive(web_target: bool) -> (s: &'static str)
    ensures
        web_target ==> s@ == "#version 300 es"@,
        !web_target ==> s@ == "#version 330"@,
{
    if web_target {
        "#version 300 es"
    } else {
        "#version 330"
    }
}

/// The name of the shader parameter that carries the accumulated drag
/// offset, a two-component float: a fixed compatibility boundary with
/// the shader sources.
pub fn mouse_delta_uniform_name() -> (s: &'static str)
    ensures
        s@ == "u_mouse_delta"@,
{
    "u_mouse_delta"
}

/// The name of the shader parameter that carries the zoom level, a
/// one-component unsigned integer: a fixed compatibility boundary with
/// the shader sources.
pub fn zoom_uniform_name() -> (s: &'static str)
    ensures
        s@ == "u_zoom"@,
{
    "u_zoom"
}

} // verus!
