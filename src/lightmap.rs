//! Per-face lightmap images sliced out of the packed light-sample buffer.

use crate::bsp::{BspData, BspFace};
use crate::error::BuildError;
use vstd::prelude::*;

verus! {

/// Light samples are taken every this many texels along each axis.
pub const LIGHTMAP_STEP: u16 = 16;

/// Samples along one axis of a face whose extent along it is `extent`.
pub open spec fn lightmap_dim(extent: u16) -> int {
    extent as int / 16 + 1
}

/// A single-channel image of baked light for one face.
#[derive(Clone, Debug, PartialEq, Eq)]
pub struct LightmapImage {
    pub width: u16,
    pub height: u16,
    pub data: Vec<u8>,
}

impl BspData {
    /// The face gets a lightmap image: its surface is not special and it
    /// carries an offset into the sample buffer.
    pub open spec fn face_is_lit(&self, face: BspFace) -> bool {
        !self.texinfo@[face.texinfo_id as int].special && face.lightmap_id is Some
    }

    /// Number of samples in the face's lightmap.
    pub open spec fn lightmap_len(&self, face: BspFace) -> int {
        lightmap_dim(face.extents@[0]) * lightmap_dim(face.extents@[1])
    }

    /// The lit face's samples run past the end of the buffer.
    pub open spec fn lightmap_error(&self, face: BspFace) -> Option<BuildError> {
        if self.face_is_lit(face) && face.lightmap_id->0 + self.lightmap_len(face)
            > self.lightmaps@.len() {
            Some(BuildError::LightmapOutOfRange)
        } else {
            None
        }
    }

    /// The samples of a lit face.
    pub open spec fn lightmap_samples(&self, face: BspFace) -> Seq<u8> {
        let ofs = face.lightmap_id->0 as int;
        self.lightmaps@.subrange(ofs, ofs + self.lightmap_len(face))
    }
}

/// Width and height of the lightmap of a face with the given extents.
pub fn lightmap_dimensions(extents: [u16; 2]) -> (r: (u16, u16))
    ensures
        r.0 == lightmap_dim(extents@[0]),
        r.1 == lightmap_dim(extents@[1]),
{
    (extents[0] / LIGHTMAP_STEP + 1, extents[1] / LIGHTMAP_STEP + 1)
}

/// Builds the face's lightmap image: `None` for a special or unlit face,
/// else the `width * height` samples at the face's offset.
pub fn face_lightmap(data: &BspData, face: &BspFace) -> (r: Result<Option<LightmapImage>, BuildError>)
    requires
        face.texinfo_id < data.texinfo@.len(),
    ensures
        r is Err <==> data.lightmap_error(*face) is Some,
        r matches Err(e) ==> data.lightmap_error(*face) == Some(e),
        r matches Ok(o) ==> (o is Some <==> data.face_is_lit(*face)),
        r matches Ok(Some(img)) ==> {
            &&& img.width == lightmap_dim(face.extents@[0])
            &&& img.height == lightmap_dim(face.extents@[1])
            &&& img.data@ == data.lightmap_samples(*face)
        },
{
    if data.texinfo[face.texinfo_id].special {
        return Ok(None);
    }
    let ofs = match face.lightmap_id {
        Some(ofs) => ofs,
        None => return Ok(None),
    };
    let (w, h) = lightmap_dimensions(face.extents);
    assert(w as int * h as int <= 4096 * 4096) by (nonlinear_arith)
        requires
            w <= 4096,
            h <= 4096,
    ;
    let size = w as usize * h as usize;
    let n = data.lightmaps.len();
    if ofs > n || size > n - ofs {
        return Err(BuildError::LightmapOutOfRange);
    }
    let mut samples: Vec<u8> = Vec::with_capacity(size);
    let mut j: usize = 0;
    while j < size
        invariant
            ofs + size <= n,
            n == data.lightmaps@.len(),
            j <= size,
            samples@ == data.lightmaps@.subrange(ofs as int, ofs + j),
        decreases size - j,
    {
        samples.push(data.lightmaps[ofs + j]);
        assert(samples@ =~= data.lightmaps@.subrange(ofs as int, ofs + j + 1));
        j += 1;
    }
    Ok(Some(LightmapImage { width: w, height: h, data: samples }))
}

} // verus!
