//! Fan triangulation of a face's edge loop.

use crate::bsp::{BspData, BspFace};
use crate::error::BuildError;
use vstd::prelude::*;

verus! {

/// Number of vertices that the fan of an `n`-sided polygon holds: three for
/// each of its `n - 2` triangles, none for a degenerate face.
pub open spec fn fan_len(n: int) -> int {
    if n >= 3 {
        3 * (n - 2)
    } else {
        0
    }
}

/// The position in the edge loop that the `k`th vertex of a fan comes from:
/// triangle `t` is the pivot (position 0), then positions `t + 1` and `t + 2`.
pub open spec fn fan_corner(k: int) -> int {
    if k % 3 == 0 {
        0
    } else {
        k / 3 + k % 3
    }
}

proof fn lemma_fan_corners(t: int)
    requires
        t >= 0,
    ensures
        fan_corner(3 * t) == 0,
        fan_corner(3 * t + 1) == t + 1,
        fan_corner(3 * t + 2) == t + 2,
{
    assert((3 * t) % 3 == 0) by (nonlinear_arith);
    assert((3 * t + 1) % 3 == 1 && (3 * t + 1) / 3 == t) by (nonlinear_arith);
    assert((3 * t + 2) % 3 == 2 && (3 * t + 2) / 3 == t) by (nonlinear_arith);
}

impl BspData {
    /// The vertex ids of the face's triangle fan, three per triangle.
    pub open spec fn fan(&self, face: BspFace) -> Seq<u16> {
        Seq::new(fan_len(face.edge_count as int) as nat, |k: int| self.loop_vertex(face, fan_corner(k)))
    }

    /// The first reason, if any, why the face's edge loop cannot be walked.
    /// A face with fewer than three edges is never walked: it yields no
    /// triangles whatever its edges hold.
    pub open spec fn loop_error(&self, face: BspFace) -> Option<BuildError> {
        if face.edge_count < 3 {
            None
        } else if !self.loop_in_range(face) {
            Some(BuildError::EdgeListOutOfRange)
        } else if !self.loop_edges_valid(face) {
            Some(BuildError::EdgeOutOfRange)
        } else if !self.loop_vertices_valid(face) {
            Some(BuildError::VertexOutOfRange)
        } else {
            None
        }
    }
}

/// Checks that every edge and vertex of the loop of a face with three or
/// more edges exists.
pub fn check_face_loop(data: &BspData, face: &BspFace) -> (r: Result<(), BuildError>)
    ensures
        r is Ok <==> data.loop_error(*face) is None,
        r matches Err(e) ==> data.loop_error(*face) == Some(e),
{
    if face.edge_count < 3 {
        return Ok(());
    }
    let n_list = data.edgelist.len();
    if face.edge_id > n_list || face.edge_count > n_list - face.edge_id {
        return Err(BuildError::EdgeListOutOfRange);
    }
    let mut i: usize = 0;
    while i < face.edge_count
        invariant
            data.loop_in_range(*face),
            face.edge_count >= 3,
            n_list == data.edgelist@.len(),
            0 <= i <= face.edge_count,
            forall|j: int|
                0 <= j < i ==> (#[trigger] data.edgelist@[face.edge_id + j]).index < data.edges@.len(),
        decreases face.edge_count - i,
    {
        if data.edgelist[face.edge_id + i].index >= data.edges.len() {
            assert(!data.loop_edges_valid(*face)) by {
                let j = i as int;
                assert(data.edgelist@[face.edge_id + j].index >= data.edges@.len());
            }
            return Err(BuildError::EdgeOutOfRange);
        }
        i += 1;
    }
    let mut i: usize = 0;
    while i < face.edge_count
        invariant
            data.loop_in_range(*face),
            data.loop_edges_valid(*face),
            face.edge_count >= 3,
            0 <= i <= face.edge_count,
            forall|j: int| 0 <= j < i ==> (#[trigger] data.loop_vertex(*face, j)) < data.vertex_count,
        decreases face.edge_count - i,
    {
        if loop_vertex(data, face, i) as usize >= data.vertex_count {
            assert(!data.loop_vertices_valid(*face)) by {
                let j = i as int;
                assert(data.loop_vertex(*face, j) >= data.vertex_count);
            }
            return Err(BuildError::VertexOutOfRange);
        }
        i += 1;
    }
    Ok(())
}

/// The vertex that the `i`th edge of the face's loop starts from.
pub fn loop_vertex(data: &BspData, face: &BspFace, i: usize) -> (r: u16)
    requires
        data.loop_in_range(*face),
        data.loop_edges_valid(*face),
        i < face.edge_count,
    ensures
        r == data.loop_vertex(*face, i as int),
{
    let n_list = data.edgelist.len();
    assert(face.edge_id + i < n_list);
    let e = data.edgelist[face.edge_id + i];
    assert(data.edgelist@[face.edge_id + i as int].index < data.edges@.len());
    let slot: usize = match e.direction {
        crate::bsp::BspEdgeDirection::Forward => 0,
        crate::bsp::BspEdgeDirection::Backward => 1,
    };
    data.edges[e.index].vertex_ids[slot]
}

/// Appends the face's triangle fan to `vertices`: for each `i` from 1 to
/// `edge_count - 2`, the pivot (loop vertex 0), then loop vertices `i` and
/// `i + 1`. A face with fewer than three edges adds nothing.
pub fn append_fan(data: &BspData, face: &BspFace, vertices: &mut Vec<u16>)
    requires
        face.edge_count >= 3 ==> data.loop_valid(*face),
    ensures
        final(vertices)@ == old(vertices)@ + data.fan(*face),
{
    let n = face.edge_count;
    if n < 3 {
        assert(data.fan(*face) =~= Seq::<u16>::empty());
        return;
    }
    let pivot = loop_vertex(data, face, 0);
    let mut i: usize = 1;
    while i < n - 1
        invariant
            data.loop_valid(*face),
            n == face.edge_count,
            n >= 3,
            1 <= i <= n - 1,
            pivot == data.loop_vertex(*face, 0),
            vertices@ == old(vertices)@ + data.fan(*face).subrange(0, 3 * (i - 1)),
        decreases n - i,
    {
        let a = loop_vertex(data, face, i);
        let b = loop_vertex(data, face, i + 1);
        proof {
            lemma_fan_corners(i - 1);
        }
        vertices.push(pivot);
        vertices.push(a);
        vertices.push(b);
        assert(data.fan(*face).subrange(0, 3 * i) =~= data.fan(*face).subrange(0, 3 * (i - 1))
            + seq![pivot, a, b]);
        i += 1;
    }
    assert(data.fan(*face).subrange(0, 3 * (n - 2)) =~= data.fan(*face));
}

/// A face with `n >= 3` edges yields exactly `3 * (n - 2)` fan vertices; a
/// face with fewer yields none.
pub proof fn lemma_fan_vertex_count(data: &BspData, face: BspFace)
    ensures
        face.edge_count >= 3 ==> data.fan(face).len() == 3 * (face.edge_count - 2),
        face.edge_count < 3 ==> data.fan(face).len() == 0,
{
}

} // verus!
