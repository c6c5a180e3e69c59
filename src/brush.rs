//! The brush renderer: triangulated vertex buffer, per-face records and
//! lightmaps built once from a model, and the per-frame draw list.

use std::rc::Rc;

use crate::animation::{frame_for_time, FRAME_TIME_MS};
use crate::bsp::{BspData, BspFace, BspModel};
use crate::error::BuildError;
use crate::lightmap::{face_lightmap, lightmap_dim, LightmapImage};
use crate::shading::{lane_value, resolve_light_styles};
use crate::texture::{check_textures, texture_error};
use crate::triangulate::{append_fan, check_face_loop, fan_len};
use vstd::prelude::*;

verus! {

/// What the renderer keeps of one face: where its fan lies in the shared
/// vertex buffer, its texture, its lightmap and its light styles.
#[derive(Clone, Copy, Debug, PartialEq, Eq)]
pub struct BrushRenderFace {
    pub vertex_start: usize,
    pub vertex_count: usize,
    pub tex_id: usize,
    pub lightmap_id: Option<usize>,
    pub light_styles: [u8; 4],
}

/// One draw of one face's fan.
#[derive(Clone, Copy, Debug, PartialEq, Eq)]
pub struct DrawCall {
    /// Position of the face in the renderer's face table.
    pub face: usize,
    pub vertex_start: usize,
    pub vertex_count: usize,
    /// The texture to bind: the current animation frame of the face's texture.
    pub texture: usize,
    /// The lightmap to bind; `None` binds the full-bright placeholder.
    pub lightmap: Option<usize>,
    /// The four light-style lanes; `None` is an inactive lane.
    pub light_lanes: [Option<u32>; 4],
}

/// Draws brush models. The vertex buffer holds vertex ids of the level, three
/// per triangle; the caller pairs them with positions and texture coordinates.
pub struct BrushRenderer {
    pub bsp_data: Rc<BspData>,
    pub faces: Vec<BrushRenderFace>,
    pub vertices: Vec<u16>,
    pub lightmaps: Vec<LightmapImage>,
}

impl BspData {
    /// The first reason, if any, why face `face_id` cannot be built.
    pub open spec fn face_error(&self, face_id: int) -> Option<BuildError> {
        if face_id < 0 || face_id >= self.faces@.len() {
            Some(BuildError::FaceOutOfRange)
        } else {
            let face = self.faces@[face_id];
            if face.texinfo_id >= self.texinfo@.len() {
                Some(BuildError::TexInfoOutOfRange)
            } else if self.texinfo@[face.texinfo_id as int].tex_id >= self.textures@.len() {
                Some(BuildError::TextureOutOfRange)
            } else if self.loop_error(face) is Some {
                self.loop_error(face)
            } else {
                self.lightmap_error(face)
            }
        }
    }

    /// The first error among faces `start .. start + k`.
    pub open spec fn first_face_error(&self, start: int, k: int) -> Option<BuildError>
        decreases k,
    {
        if k <= 0 {
            None
        } else {
            match self.first_face_error(start, k - 1) {
                Some(e) => Some(e),
                None => self.face_error(start + k - 1),
            }
        }
    }

    /// The first error of building a renderer for faces `start .. start + count`:
    /// faces first, in order, then the level's textures.
    pub open spec fn build_error(&self, start: int, count: int) -> Option<BuildError> {
        match self.first_face_error(start, count) {
            Some(e) => Some(e),
            None => self.textures_error(),
        }
    }

    /// The fans of faces `start .. start + k`, one after another.
    pub open spec fn fans(&self, start: int, k: int) -> Seq<u16>
        decreases k,
    {
        if k <= 0 {
            Seq::empty()
        } else {
            self.fans(start, k - 1) + self.fan(self.faces@[start + k - 1])
        }
    }

    /// The lit faces among faces `start .. start + k`, in order.
    pub open spec fn lit_faces(&self, start: int, k: int) -> Seq<BspFace>
        decreases k,
    {
        if k <= 0 {
            Seq::empty()
        } else {
            let face = self.faces@[start + k - 1];
            if self.face_is_lit(face) {
                self.lit_faces(start, k - 1).push(face)
            } else {
                self.lit_faces(start, k - 1)
            }
        }
    }

    /// The record of the `k`th face of the run that starts at `start`.
    pub open spec fn record(&self, start: int, k: int) -> BrushRenderFace {
        let face = self.faces@[start + k];
        BrushRenderFace {
            vertex_start: self.fans(start, k).len() as usize,
            vertex_count: fan_len(face.edge_count as int) as usize,
            tex_id: self.texinfo@[face.texinfo_id as int].tex_id,
            lightmap_id: if self.face_is_lit(face) {
                Some(self.lit_faces(start, k).len() as usize)
            } else {
                None
            },
            light_styles: face.light_styles,
        }
    }

    /// `img` is the lightmap image of `face`.
    pub open spec fn lightmap_of(&self, face: BspFace, img: LightmapImage) -> bool {
        &&& img.width == lightmap_dim(face.extents@[0])
        &&& img.height == lightmap_dim(face.extents@[1])
        &&& img.data@ == self.lightmap_samples(face)
    }
}

proof fn lemma_first_face_error_prefix(data: &BspData, start: int, k: int, n: int)
    requires
        0 <= k <= n,
        data.first_face_error(start, k) is Some,
    ensures
        data.first_face_error(start, n) == data.first_face_error(start, k),
    decreases n - k,
{
    if n > k {
        lemma_first_face_error_prefix(data, start, k, n - 1);
    }
}

/// Triangulates face `face_id` onto the end of `vertices` and, when the face
/// is lit, appends its lightmap image to `lightmaps`. On an error neither
/// vector changes.
pub fn create_brush_render_face(
    data: &BspData,
    face_id: usize,
    vertices: &mut Vec<u16>,
    lightmaps: &mut Vec<LightmapImage>,
) -> (r: Result<BrushRenderFace, BuildError>)
    ensures
        r is Err <==> data.face_error(face_id as int) is Some,
        r matches Err(e) ==> {
            &&& data.face_error(face_id as int) == Some(e)
            &&& final(vertices)@ == old(vertices)@
            &&& final(lightmaps)@ == old(lightmaps)@
        },
        r matches Ok(rec) ==> {
            let face = data.faces@[face_id as int];
            &&& final(vertices)@ == old(vertices)@ + data.fan(face)
            &&& rec.vertex_start == old(vertices)@.len()
            &&& rec.vertex_count == fan_len(face.edge_count as int)
            &&& rec.tex_id == data.texinfo@[face.texinfo_id as int].tex_id
            &&& rec.lightmap_id == if data.face_is_lit(face) {
                Some(old(lightmaps)@.len() as usize)
            } else {
                None
            }
            &&& rec.light_styles == face.light_styles
            &&& if data.face_is_lit(face) {
                &&& final(lightmaps)@.len() == old(lightmaps)@.len() + 1
                &&& final(lightmaps)@.subrange(0, old(lightmaps)@.len() as int) == old(lightmaps)@
                &&& data.lightmap_of(face, final(lightmaps)@.last())
            } else {
                final(lightmaps)@ == old(lightmaps)@
            }
        },
{
    if face_id >= data.faces.len() {
        return Err(BuildError::FaceOutOfRange);
    }
    let face = &data.faces[face_id];
    if face.texinfo_id >= data.texinfo.len() {
        return Err(BuildError::TexInfoOutOfRange);
    }
    let tex_id = data.texinfo[face.texinfo_id].tex_id;
    if tex_id >= data.textures.len() {
        return Err(BuildError::TextureOutOfRange);
    }
    check_face_loop(data, face)?;
    let lightmap = face_lightmap(data, face)?;

    let face_vert_id = vertices.len();
    append_fan(data, face, vertices);
    let face_vert_count = vertices.len() - face_vert_id;

    let lightmap_id = match lightmap {
        Some(img) => {
            let l_id = lightmaps.len();
            lightmaps.push(img);
            assert(lightmaps@.subrange(0, old(lightmaps)@.len() as int) =~= old(lightmaps)@);
            Some(l_id)
        },
        None => None,
    };
    Ok(
        BrushRenderFace {
            vertex_start: face_vert_id,
            vertex_count: face_vert_count,
            tex_id,
            lightmap_id,
            light_styles: face.light_styles,
        },
    )
}

impl BrushRenderer {
    /// The renderer holds exactly what building faces
    /// `model.face_id .. model.face_id + model.face_count` of the model's level gives.
    pub open spec fn built_from(&self, model: BspModel) -> bool {
        let data = *model.bsp_data;
        let start = model.face_id as int;
        let count = model.face_count as int;
        &&& *self.bsp_data == data
        &&& self.faces@.len() == count
        &&& forall|k: int| 0 <= k < count ==> #[trigger] self.faces@[k] == data.record(start, k)
        &&& self.vertices@ == data.fans(start, count)
        &&& self.lightmaps@.len() == data.lit_faces(start, count).len()
        &&& forall|j: int|
            0 <= j < self.lightmaps@.len() ==> data.lightmap_of(
                data.lit_faces(start, count)[j],
                #[trigger] self.lightmaps@[j],
            )
    }

    /// Every face record points inside the vertex buffer, at a texture and at
    /// a lightmap that exist, and every texture's animation stays in range.
    pub open spec fn well_formed(&self) -> bool {
        &&& self.bsp_data.textures_valid()
        &&& forall|k: int|
            0 <= k < self.faces@.len() ==> {
                let f = #[trigger] self.faces@[k];
                &&& f.vertex_start + f.vertex_count <= self.vertices@.len()
                &&& f.tex_id < self.bsp_data.textures@.len()
                &&& f.lightmap_id matches Some(l) ==> l < self.lightmaps@.len()
            }
    }

    /// Builds the renderer for a model: triangulates each of its faces in
    /// order, slices the lightmap of each lit face, then checks every texture
    /// of the level. The first malformed face or texture fails the whole build.
    pub fn new(model: &BspModel) -> (r: Result<BrushRenderer, BuildError>)
        ensures
            r is Err <==> model.bsp_data.build_error(
                model.face_id as int,
                model.face_count as int,
            ) is Some,
            r matches Err(e) ==> model.bsp_data.build_error(
                model.face_id as int,
                model.face_count as int,
            ) == Some(e),
            r matches Ok(renderer) ==> renderer.built_from(*model) && renderer.well_formed(),
    {
        let bsp_data = model.bsp_data();
        let data: &BspData = &*bsp_data;
        let start = model.face_id;
        let count = model.face_count;
        let n_faces = data.faces.len();
        let mut faces: Vec<BrushRenderFace> = Vec::new();
        let mut vertices: Vec<u16> = Vec::new();
        let mut lightmaps: Vec<LightmapImage> = Vec::new();
        let mut k: usize = 0;
        while k < count
            invariant
                *data == *model.bsp_data,
                start == model.face_id,
                count == model.face_count,
                n_faces == data.faces@.len(),
                k <= count,
                data.first_face_error(start as int, k as int) is None,
                faces@.len() == k,
                forall|j: int| 0 <= j < k ==> #[trigger] faces@[j] == data.record(start as int, j),
                vertices@ == data.fans(start as int, k as int),
                lightmaps@.len() == data.lit_faces(start as int, k as int).len(),
                forall|j: int|
                    0 <= j < lightmaps@.len() ==> data.lightmap_of(
                        data.lit_faces(start as int, k as int)[j],
                        #[trigger] lightmaps@[j],
                    ),
                forall|j: int|
                    0 <= j < k ==> {
                        let f = #[trigger] faces@[j];
                        &&& f.vertex_start + f.vertex_count <= vertices@.len()
                        &&& f.tex_id < data.textures@.len()
                        &&& f.lightmap_id matches Some(l) ==> l < lightmaps@.len()
                    },
            decreases count - k,
        {
            if start >= n_faces || k >= n_faces - start {
                proof {
                    assert(data.face_error(start + k) == Some(BuildError::FaceOutOfRange));
                    lemma_first_face_error_prefix(data, start as int, k + 1, count as int);
                }
                return Err(BuildError::FaceOutOfRange);
            }
            let ghost old_lightmaps = lightmaps@;
            let ghost old_vertices = vertices@;
            let rec = create_brush_render_face(data, start + k, &mut vertices, &mut lightmaps);
            match rec {
                Err(e) => {
                    proof {
                        lemma_first_face_error_prefix(data, start as int, k + 1, count as int);
                    }
                    return Err(e);
                },
                Ok(rec) => {
                    let ghost face = data.faces@[start + k];
                    proof {
                        assert(data.fans(start as int, k + 1) == old_vertices + data.fan(face));
                        if data.face_is_lit(face) {
                            assert(data.lit_faces(start as int, k + 1) == data.lit_faces(
                                start as int,
                                k as int,
                            ).push(face));
                            assert forall|j: int| 0 <= j < lightmaps@.len() implies data.lightmap_of(
                                data.lit_faces(start as int, k + 1)[j],
                                #[trigger] lightmaps@[j],
                            ) by {
                                if j < old_lightmaps.len() {
                                    assert(lightmaps@[j] == lightmaps@.subrange(
                                        0,
                                        old_lightmaps.len() as int,
                                    )[j]);
                                }
                            }
                        }
                    }
                    faces.push(rec);
                    k += 1;
                },
            }
        }
        let textures = check_textures(data);
        if let Err(e) = textures {
            return Err(e);
        }
        Ok(BrushRenderer { bsp_data, faces, vertices, lightmaps })
    }
}


/// The positions in the face table of the faces among the first `k` that have
/// triangles to draw, in order.
pub open spec fn drawn_faces(faces: Seq<BrushRenderFace>, k: int) -> Seq<int>
    decreases k,
{
    if k <= 0 {
        Seq::empty()
    } else if faces[k - 1].vertex_count > 0 {
        drawn_faces(faces, k - 1).push(k - 1)
    } else {
        drawn_faces(faces, k - 1)
    }
}

impl BrushRenderer {
    /// `d` is the draw of face `k` at `time_ms` with the given light-style values.
    pub open spec fn draw_of(&self, d: DrawCall, k: int, time_ms: int, values: Seq<u32>) -> bool {
        let f = self.faces@[k];
        &&& d.face == k
        &&& d.vertex_start == f.vertex_start
        &&& d.vertex_count == f.vertex_count
        &&& d.texture == frame_for_time(self.bsp_data.textures@[f.tex_id as int], f.tex_id as int, time_ms)
        &&& d.lightmap == f.lightmap_id
        &&& forall|l: int| 0 <= l < 4 ==> #[trigger] d.light_lanes@[l] == lane_value(f.light_styles@[l], values)
    }

    /// The draw's texture, lightmap and vertex range exist.
    pub open spec fn draw_in_bounds(&self, d: DrawCall) -> bool {
        &&& d.texture < self.bsp_data.textures@.len()
        &&& d.lightmap matches Some(l) ==> l < self.lightmaps@.len()
        &&& d.vertex_start + d.vertex_count <= self.vertices@.len()
    }

    /// `draws` is the draw list for `time_ms`: one draw per face that has
    /// triangles, in face-table order.
    pub open spec fn renders(&self, draws: Seq<DrawCall>, time_ms: int, values: Seq<u32>) -> bool {
        let order = drawn_faces(self.faces@, self.faces@.len() as int);
        &&& draws.len() == order.len()
        &&& forall|i: int| 0 <= i < draws.len() ==> self.draw_of(#[trigger] draws[i], order[i], time_ms, values)
    }

    /// The draws of one frame at `time_ms` of simulation time, given the
    /// current intensity of each light style. Faces without triangles are
    /// skipped.
    pub fn render(&self, time_ms: u64, lightstyle_values: &[u32]) -> (r: Vec<DrawCall>)
        requires
            self.well_formed(),
        ensures
            self.renders(r@, time_ms as int, lightstyle_values@),
            forall|i: int| 0 <= i < r@.len() ==> self.draw_in_bounds(#[trigger] r@[i]),
    {
        let data: &BspData = &*self.bsp_data;
        let n = self.faces.len();
        let mut draws: Vec<DrawCall> = Vec::new();
        let mut k: usize = 0;
        while k < n
            invariant
                self.well_formed(),
                *data == *self.bsp_data,
                n == self.faces@.len(),
                k <= n,
                draws@.len() == drawn_faces(self.faces@, k as int).len(),
                forall|i: int|
                    0 <= i < draws@.len() ==> self.draw_of(
                        #[trigger] draws@[i],
                        drawn_faces(self.faces@, k as int)[i],
                        time_ms as int,
                        lightstyle_values@,
                    ),
                forall|i: int| 0 <= i < draws@.len() ==> self.draw_in_bounds(#[trigger] draws@[i]),
            decreases n - k,
        {
            let f = self.faces[k];
            if f.vertex_count > 0 {
                let texture = data.texture_frame_for_time(f.tex_id, time_ms);
                proof {
                    let tex = data.textures@[f.tex_id as int];
                    assert(texture_error(tex, data.textures@.len() as int) is None);
                    if tex.frames@.len() > 0 {
                        let slot = (time_ms as int / FRAME_TIME_MS as int) % tex.frames@.len() as int;
                        assert(tex.frames@[slot] < data.textures@.len());
                    }
                }
                let light_lanes = resolve_light_styles(f.light_styles, lightstyle_values);
                let d = DrawCall {
                    face: k,
                    vertex_start: f.vertex_start,
                    vertex_count: f.vertex_count,
                    texture,
                    lightmap: f.lightmap_id,
                    light_lanes,
                };
                draws.push(d);
            }
            k += 1;
        }
        draws
    }
}

/// Building twice from the same level and face range gives the same vertex
/// buffer, the same face table and the same lightmaps.
pub proof fn lemma_build_deterministic(
    a: &BrushRenderer,
    b: &BrushRenderer,
    model_a: BspModel,
    model_b: BspModel,
)
    requires
        a.built_from(model_a),
        b.built_from(model_b),
        *model_a.bsp_data == *model_b.bsp_data,
        model_a.face_id == model_b.face_id,
        model_a.face_count == model_b.face_count,
    ensures
        a.vertices@ == b.vertices@,
        a.faces@ == b.faces@,
        a.lightmaps@.len() == b.lightmaps@.len(),
        forall|j: int|
            0 <= j < a.lightmaps@.len() ==> {
                &&& (#[trigger] a.lightmaps@[j]).width == b.lightmaps@[j].width
                &&& a.lightmaps@[j].height == b.lightmaps@[j].height
                &&& a.lightmaps@[j].data@ == b.lightmaps@[j].data@
            },
{
    assert(a.faces@ =~= b.faces@);
}

/// The frame chosen for each draw depends on the time alone, not on the
/// light-style values: two draw lists for the same time bind the same
/// textures, face by face.
pub proof fn lemma_frame_depends_on_time(
    r: &BrushRenderer,
    a: Seq<DrawCall>,
    b: Seq<DrawCall>,
    time_ms: int,
    values_a: Seq<u32>,
    values_b: Seq<u32>,
)
    requires
        r.renders(a, time_ms, values_a),
        r.renders(b, time_ms, values_b),
    ensures
        a.len() == b.len(),
        forall|i: int| 0 <= i < a.len() ==> (#[trigger] a[i]).texture == b[i].texture && a[i].face == b[i].face,
{
}

proof fn lemma_drawn_faces_skip(faces: Seq<BrushRenderFace>, k: int, n: int)
    requires
        0 <= k < n <= faces.len(),
        faces[k].vertex_count == 0,
    ensures
        forall|i: int| 0 <= i < drawn_faces(faces, n).len() ==> #[trigger] drawn_faces(faces, n)[i] != k,
    decreases n,
{
    let prev = drawn_faces(faces, n - 1);
    if n - 1 > k {
        lemma_drawn_faces_skip(faces, k, n - 1);
    } else {
        lemma_drawn_faces_below(faces, n - 1);
    }
    assert forall|i: int| 0 <= i < drawn_faces(faces, n).len() implies #[trigger] drawn_faces(
        faces,
        n,
    )[i] != k by {
        if i < prev.len() {
            assert(drawn_faces(faces, n)[i] == prev[i]);
        }
    }
}

proof fn lemma_drawn_faces_below(faces: Seq<BrushRenderFace>, n: int)
    requires
        0 <= n <= faces.len(),
    ensures
        forall|i: int| 0 <= i < drawn_faces(faces, n).len() ==> #[trigger] drawn_faces(faces, n)[i] < n,
    decreases n,
{
    if n > 0 {
        lemma_drawn_faces_below(faces, n - 1);
        let prev = drawn_faces(faces, n - 1);
        assert forall|i: int| 0 <= i < drawn_faces(faces, n).len() implies #[trigger] drawn_faces(
            faces,
            n,
        )[i] < n by {
            if i < prev.len() {
                assert(drawn_faces(faces, n)[i] == prev[i]);
            }
        }
    }
}

/// A face with fewer than three edges keeps its record but is never drawn.
pub proof fn lemma_degenerate_face_not_drawn(
    r: &BrushRenderer,
    model: BspModel,
    draws: Seq<DrawCall>,
    time_ms: int,
    values: Seq<u32>,
    k: int,
)
    requires
        r.built_from(model),
        r.renders(draws, time_ms, values),
        0 <= k < model.face_count,
        model.bsp_data.faces@[model.face_id + k].edge_count < 3,
    ensures
        r.faces@[k].vertex_count == 0,
        forall|i: int| 0 <= i < draws.len() ==> (#[trigger] draws[i]).face != k,
{
    assert(r.faces@[k] == model.bsp_data.record(model.face_id as int, k));
    lemma_drawn_faces_skip(r.faces@, k, r.faces@.len() as int);
    assert forall|i: int| 0 <= i < draws.len() implies (#[trigger] draws[i]).face != k by {
        assert(r.draw_of(draws[i], drawn_faces(r.faces@, r.faces@.len() as int)[i], time_ms, values));
    }
}

proof fn lemma_lit_faces_prefix(data: &BspData, start: int, k: int, n: int)
    requires
        0 <= k <= n,
    ensures
        data.lit_faces(start, k).len() <= data.lit_faces(start, n).len(),
        data.lit_faces(start, n).subrange(0, data.lit_faces(start, k).len() as int) == data.lit_faces(
            start,
            k,
        ),
    decreases n - k,
{
    if n > k {
        lemma_lit_faces_prefix(data, start, k, n - 1);
        let m = data.lit_faces(start, k).len() as int;
        assert(data.lit_faces(start, n).subrange(0, m) =~= data.lit_faces(start, n - 1).subrange(0, m));
    } else {
        assert(data.lit_faces(start, n).subrange(0, data.lit_faces(start, n).len() as int) =~= data.lit_faces(
            start,
            n,
        ));
    }
}

/// Each lit face of a built model has a lightmap of
/// `floor(extents.x / 16) + 1` by `floor(extents.y / 16) + 1` samples; a
/// special or unlit face has none.
pub proof fn lemma_face_lightmap_dimensions(r: &BrushRenderer, model: BspModel, k: int)
    requires
        r.built_from(model),
        r.lightmaps@.len() <= usize::MAX,
        0 <= k < model.face_count,
    ensures
        ({
            let face = model.bsp_data.faces@[model.face_id + k];
            if model.bsp_data.face_is_lit(face) {
                r.faces@[k].lightmap_id matches Some(l) && l < r.lightmaps@.len()
                    && r.lightmaps@[l as int].width == lightmap_dim(face.extents@[0])
                    && r.lightmaps@[l as int].height == lightmap_dim(face.extents@[1])
            } else {
                r.faces@[k].lightmap_id is None
            }
        }),
{
    let data = *model.bsp_data;
    let start = model.face_id as int;
    let face = data.faces@[start + k];
    assert(r.faces@[k] == data.record(start, k));
    if data.face_is_lit(face) {
        let l = data.lit_faces(start, k).len() as int;
        lemma_lit_faces_prefix(&data, start, k + 1, model.face_count as int);
        assert(data.lit_faces(start, k + 1) == data.lit_faces(start, k).push(face));
        let all = data.lit_faces(start, model.face_count as int);
        assert(all.subrange(0, l + 1)[l] == all[l]);
        assert(data.lightmap_of(all[l], r.lightmaps@[l]));
    }
}

} // verus!
