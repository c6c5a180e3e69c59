//! The parsed level data that the renderer reads. Only the integer part of
//! the level is held here: vertex positions and texture projections are
//! floating point and live with the caller.

use std::rc::Rc;
use vstd::prelude::*;

verus! {

/// Number of mipmap levels stored for each texture.
pub const MIPLEVELS: usize = 4;

/// Which end of a shared edge a face's loop starts from.
#[derive(Clone, Copy, Debug, PartialEq, Eq)]
pub enum BspEdgeDirection {
    Forward,
    Backward,
}

/// The slot of `BspEdge::vertex_ids` that a traversal in this direction reads.
pub open spec fn direction_slot(d: BspEdgeDirection) -> int {
    match d {
        BspEdgeDirection::Forward => 0,
        BspEdgeDirection::Backward => 1,
    }
}

/// One entry of the edge list: an edge, and the direction in which a face walks it.
#[derive(Clone, Copy, Debug, PartialEq, Eq)]
pub struct BspEdgeIndex {
    pub direction: BspEdgeDirection,
    pub index: usize,
}

/// An edge between two vertices, shared by the faces on either side.
#[derive(Clone, Copy, Debug, PartialEq, Eq)]
pub struct BspEdge {
    pub vertex_ids: [u16; 2],
}

/// A planar polygon of the level.
#[derive(Clone, Copy, Debug, PartialEq, Eq)]
pub struct BspFace {
    pub texinfo_id: usize,
    /// First entry of this face's edge loop in the edge list.
    pub edge_id: usize,
    pub edge_count: usize,
    pub light_styles: [u8; 4],
    /// Offset of the face's baked light samples, if it has any.
    pub lightmap_id: Option<usize>,
    pub texture_mins: [i16; 2],
    pub extents: [u16; 2],
}

/// The integer part of a texture projection record.
#[derive(Clone, Copy, Debug, PartialEq, Eq)]
pub struct BspTexInfo {
    pub tex_id: usize,
    /// Sky, water and other surfaces that are never lightmapped.
    pub special: bool,
}

/// A texture: its size, one indexed-colour plane per mipmap level, and its
/// animation cycle (texture ids in display order; empty for a still texture).
#[derive(Clone, Debug, PartialEq, Eq)]
pub struct BspTexture {
    pub width: u32,
    pub height: u32,
    pub mipmaps: Vec<Vec<u8>>,
    pub frames: Vec<usize>,
}

/// The parsed level.
#[derive(Clone, Debug, PartialEq, Eq)]
pub struct BspData {
    /// Number of vertex positions in the level; a vertex id is valid below it.
    pub vertex_count: usize,
    pub edges: Vec<BspEdge>,
    /// The faces' edge loops, each a run of entries.
    pub edgelist: Vec<BspEdgeIndex>,
    pub faces: Vec<BspFace>,
    pub texinfo: Vec<BspTexInfo>,
    pub textures: Vec<BspTexture>,
    /// Packed light samples, one byte each, addressed by the faces' offsets.
    pub lightmaps: Vec<u8>,
}

/// A sub-model of the level: a run of consecutive faces.
#[derive(Clone, Debug)]
pub struct BspModel {
    pub bsp_data: Rc<BspData>,
    pub face_id: usize,
    pub face_count: usize,
}

impl BspData {
    /// The vertex that the `i`th edge of `face`'s loop starts from.
    pub open spec fn loop_vertex(&self, face: BspFace, i: int) -> u16 {
        let e = self.edgelist@[face.edge_id + i];
        self.edges@[e.index as int].vertex_ids@[direction_slot(e.direction)]
    }

    /// The face's edge loop lies inside the edge list.
    pub open spec fn loop_in_range(&self, face: BspFace) -> bool {
        face.edge_id + face.edge_count <= self.edgelist@.len()
    }

    /// Every edge that the face's loop names exists.
    pub open spec fn loop_edges_valid(&self, face: BspFace) -> bool {
        forall|i: int|
            0 <= i < face.edge_count ==> (#[trigger] self.edgelist@[face.edge_id + i]).index
                < self.edges@.len()
    }

    /// Every vertex that the face's loop reaches exists.
    pub open spec fn loop_vertices_valid(&self, face: BspFace) -> bool {
        forall|i: int| 0 <= i < face.edge_count ==> (#[trigger] self.loop_vertex(face, i)) < self.vertex_count
    }

    pub open spec fn loop_valid(&self, face: BspFace) -> bool {
        self.loop_in_range(face) && self.loop_edges_valid(face) && self.loop_vertices_valid(face)
    }
}

impl BspModel {
    pub fn new(bsp_data: Rc<BspData>, face_id: usize, face_count: usize) -> (r: BspModel)
        ensures
            *r.bsp_data == *bsp_data,
            r.face_id == face_id,
            r.face_count == face_count,
    {
        BspModel { bsp_data, face_id, face_count }
    }

    pub fn bsp_data(&self) -> (r: Rc<BspData>)
        ensures
            *r == *self.bsp_data,
    {
        Rc::clone(&self.bsp_data)
    }
}

} // verus!
