use std::rc::Rc;

use richter_brush::animation::FRAME_TIME_MS;
use richter_brush::brush::{create_brush_render_face, BrushRenderer};
use richter_brush::bsp::{
    BspData, BspEdge, BspEdgeDirection, BspEdgeIndex, BspFace, BspModel, BspTexInfo, BspTexture,
};
use richter_brush::error::BuildError;
use richter_brush::lightmap::{face_lightmap, lightmap_dimensions, LightmapImage};
use richter_brush::texture::check_texture;
use richter_brush::triangulate::{append_fan, check_face_loop};

fn texture(width: u32, height: u32, frames: Vec<usize>) -> BspTexture {
    let mut mipmaps = Vec::new();
    for level in 0..4 {
        let w = (width >> level) as usize;
        let h = (height >> level) as usize;
        mipmaps.push(vec![level as u8; w * h]);
    }
    BspTexture { width, height, mipmaps, frames }
}

fn face(edge_id: usize, edge_count: usize, lightmap_id: Option<usize>, extents: [u16; 2]) -> BspFace {
    BspFace {
        texinfo_id: 0,
        edge_id,
        edge_count,
        light_styles: [0, 255, 255, 255],
        lightmap_id,
        texture_mins: [0, 0],
        extents,
    }
}

fn forward(index: usize) -> BspEdgeIndex {
    BspEdgeIndex { direction: BspEdgeDirection::Forward, index }
}

/// A square (vertices 0..4), a pentagon (vertices 4..9) and a two-edge face.
fn level() -> BspData {
    let mut edges = Vec::new();
    for (a, b) in [(0, 1), (1, 2), (2, 3), (3, 0), (4, 5), (5, 6), (6, 7), (7, 8), (8, 4)] {
        edges.push(BspEdge { vertex_ids: [a, b] });
    }
    let edgelist: Vec<BspEdgeIndex> = (0..9).map(forward).collect();
    let lightmaps: Vec<u8> = (0..64u8).collect();
    BspData {
        vertex_count: 9,
        edges,
        edgelist,
        faces: vec![
            face(0, 4, Some(0), [32, 48]),
            face(4, 5, Some(12), [16, 0]),
            face(0, 2, None, [0, 0]),
        ],
        texinfo: vec![BspTexInfo { tex_id: 0, special: false }],
        textures: vec![texture(64, 64, vec![]), texture(16, 16, vec![])],
        lightmaps,
    }
}

fn model(data: BspData, face_id: usize, face_count: usize) -> BspModel {
    BspModel::new(Rc::new(data), face_id, face_count)
}

fn build(data: BspData, face_id: usize, face_count: usize) -> Result<BrushRenderer, BuildError> {
    BrushRenderer::new(&model(data, face_id, face_count))
}

#[test]
fn fan_of_square_is_two_triangles() {
    let data = level();
    let mut v = vec![99];
    append_fan(&data, &data.faces[0], &mut v);
    assert_eq!(v, vec![99, 0, 1, 2, 0, 2, 3]);
}

#[test]
fn fan_vertex_count_is_three_per_triangle() {
    let data = level();
    for n in 0..6usize {
        let mut data = data.clone();
        data.faces[1].edge_count = n;
        let mut v = Vec::new();
        append_fan(&data, &data.faces[1], &mut v);
        let expected = if n >= 3 { 3 * (n - 2) } else { 0 };
        assert_eq!(v.len(), expected);
    }
}

#[test]
fn fan_of_pentagon_pivots_on_first_vertex() {
    let data = level();
    let mut v = Vec::new();
    append_fan(&data, &data.faces[1], &mut v);
    assert_eq!(v, vec![4, 5, 6, 4, 6, 7, 4, 7, 8]);
}

#[test]
fn backward_edge_reads_second_vertex() {
    let mut data = level();
    data.edges[1] = BspEdge { vertex_ids: [2, 1] };
    data.edgelist[1] = BspEdgeIndex { direction: BspEdgeDirection::Backward, index: 1 };
    let mut v = Vec::new();
    append_fan(&data, &data.faces[0], &mut v);
    assert_eq!(v, vec![0, 1, 2, 0, 2, 3]);
}

#[test]
fn face_loop_errors() {
    let mut data = level();
    let mut f = data.faces[0];
    f.edge_id = 8;
    assert_eq!(check_face_loop(&data, &f), Err(BuildError::EdgeListOutOfRange));
    data.edgelist[2] = forward(40);
    assert_eq!(check_face_loop(&data, &data.faces[0]), Err(BuildError::EdgeOutOfRange));
    let mut data = level();
    data.vertex_count = 3;
    assert_eq!(check_face_loop(&data, &data.faces[0]), Err(BuildError::VertexOutOfRange));
    assert_eq!(check_face_loop(&level(), &level().faces[1]), Ok(()));
}

#[test]
fn lightmap_dimensions_follow_extents() {
    assert_eq!(lightmap_dimensions([32, 48]), (3, 4));
    assert_eq!(lightmap_dimensions([0, 15]), (1, 1));
    assert_eq!(lightmap_dimensions([17, 31]), (2, 2));
    assert_eq!(lightmap_dimensions([65535, 65535]), (4096, 4096));
}

#[test]
fn lit_face_gets_its_samples() {
    let data = level();
    let img = face_lightmap(&data, &data.faces[0]).unwrap().unwrap();
    assert_eq!(img.width, 3);
    assert_eq!(img.height, 4);
    assert_eq!(img.data, (0..12u8).collect::<Vec<u8>>());
    let img = face_lightmap(&data, &data.faces[1]).unwrap().unwrap();
    assert_eq!((img.width, img.height), (2, 1));
    assert_eq!(img.data, vec![12, 13]);
}

#[test]
fn unlit_and_special_faces_have_no_lightmap() {
    let mut data = level();
    assert_eq!(face_lightmap(&data, &data.faces[2]), Ok(None));
    data.texinfo[0].special = true;
    assert_eq!(face_lightmap(&data, &data.faces[0]), Ok(None));
}

#[test]
fn truncated_lightmap_is_an_error() {
    let mut data = level();
    data.faces[0].lightmap_id = Some(60);
    assert_eq!(face_lightmap(&data, &data.faces[0]), Err(BuildError::LightmapOutOfRange));
    data.faces[0].lightmap_id = Some(52);
    assert!(face_lightmap(&data, &data.faces[0]).unwrap().is_some());
}

#[test]
fn texture_checks() {
    assert_eq!(check_texture(&texture(64, 64, vec![]), 1), Ok(()));
    assert_eq!(check_texture(&texture(0, 64, vec![]), 1), Err(BuildError::MalformedTexture));
    assert_eq!(check_texture(&texture(70000, 16, vec![]), 1), Err(BuildError::MalformedTexture));
    let mut t = texture(64, 64, vec![]);
    t.mipmaps[3].pop();
    assert_eq!(check_texture(&t, 1), Err(BuildError::MalformedTexture));
    let mut t = texture(64, 64, vec![]);
    t.mipmaps.pop();
    assert_eq!(check_texture(&t, 1), Err(BuildError::MalformedTexture));
    assert_eq!(check_texture(&texture(64, 64, vec![0, 1]), 2), Ok(()));
    assert_eq!(check_texture(&texture(64, 64, vec![0, 2]), 2), Err(BuildError::AnimationFrameOutOfRange));
}

#[test]
fn quad_face_end_to_end() {
    let data = level();
    let mut vertices = Vec::new();
    let mut lightmaps: Vec<LightmapImage> = Vec::new();
    let rec = create_brush_render_face(&data, 0, &mut vertices, &mut lightmaps).unwrap();
    assert_eq!(rec.vertex_start, 0);
    assert_eq!(rec.vertex_count, 6);
    assert_eq!(vertices.len(), 6);
    assert_eq!(rec.lightmap_id, Some(0));
    assert_eq!((lightmaps[0].width, lightmaps[0].height), (3, 4));
    assert_eq!(rec.tex_id, 0);
    assert_eq!(rec.light_styles, [0, 255, 255, 255]);
}

#[test]
fn degenerate_face_is_recorded_but_not_drawn() {
    let r = build(level(), 0, 3).unwrap();
    assert_eq!(r.faces.len(), 3);
    assert_eq!(r.faces[2].vertex_count, 0);
    assert_eq!(r.faces[2].vertex_start, 15);
    assert_eq!(r.faces[2].lightmap_id, None);
    let draws = r.render(0, &[500]);
    assert_eq!(draws.len(), 2);
    assert_eq!(draws[0].face, 0);
    assert_eq!(draws[1].face, 1);
    assert!(draws.iter().all(|d| d.face != 2));
}

#[test]
fn degenerate_face_needs_no_valid_edges() {
    let mut data = level();
    data.faces[2].edge_id = 1000;
    data.faces[2].edge_count = 2;
    let mut f = data.faces[2];
    assert_eq!(check_face_loop(&data, &f), Ok(()));
    f.edge_count = 0;
    assert_eq!(check_face_loop(&data, &f), Ok(()));
    let r = build(data, 0, 3).unwrap();
    assert_eq!(r.faces[2].vertex_count, 0);
    assert_eq!(r.vertices.len(), 15);
    assert_eq!(r.render(0, &[]).len(), 2);
}

#[test]
fn render_lanes_follow_slots() {
    let mut data = level();
    data.faces[0].light_styles = [0, 255, 1, 255];
    let r = build(data, 0, 1).unwrap();
    let draws = r.render(0, &[400, 600]);
    assert_eq!(draws[0].light_lanes, [Some(400), None, Some(600), None]);
    let f = richter_brush::shading::blend_light_styles(draws[0].light_lanes);
    assert_eq!(f.num * 2, f.den);
}

#[test]
fn build_lays_faces_out_in_order() {
    let r = build(level(), 0, 3).unwrap();
    assert_eq!(r.vertices, vec![0, 1, 2, 0, 2, 3, 4, 5, 6, 4, 6, 7, 4, 7, 8]);
    assert_eq!((r.faces[0].vertex_start, r.faces[0].vertex_count), (0, 6));
    assert_eq!((r.faces[1].vertex_start, r.faces[1].vertex_count), (6, 9));
    assert_eq!(r.faces[0].lightmap_id, Some(0));
    assert_eq!(r.faces[1].lightmap_id, Some(1));
    assert_eq!(r.lightmaps.len(), 2);
    let r = build(level(), 1, 1).unwrap();
    assert_eq!(r.vertices, vec![4, 5, 6, 4, 6, 7, 4, 7, 8]);
    assert_eq!(r.faces[0].lightmap_id, Some(0));
}

#[test]
fn building_twice_gives_the_same_content() {
    let a = build(level(), 0, 3).unwrap();
    let b = build(level(), 0, 3).unwrap();
    assert_eq!(a.vertices, b.vertices);
    assert_eq!(a.faces, b.faces);
    assert_eq!(a.lightmaps, b.lightmaps);
}

#[test]
fn build_errors() {
    assert_eq!(build(level(), 2, 2).err(), Some(BuildError::FaceOutOfRange));
    assert_eq!(build(level(), usize::MAX, 2).err(), Some(BuildError::FaceOutOfRange));
    let mut data = level();
    data.faces[1].texinfo_id = 3;
    assert_eq!(build(data, 0, 3).err(), Some(BuildError::TexInfoOutOfRange));
    let mut data = level();
    data.texinfo[0].tex_id = 2;
    assert_eq!(build(data, 0, 3).err(), Some(BuildError::TextureOutOfRange));
    let mut data = level();
    data.lightmaps.truncate(13);
    assert_eq!(build(data, 0, 3).err(), Some(BuildError::LightmapOutOfRange));
    let mut data = level();
    data.textures[1].width = 17;
    assert_eq!(build(data, 0, 3).err(), Some(BuildError::MalformedTexture));
    let mut data = level();
    data.textures[0].frames = vec![0, 5];
    assert_eq!(build(data, 0, 3).err(), Some(BuildError::AnimationFrameOutOfRange));
    let mut data = level();
    data.faces[0].edge_count = 10;
    assert_eq!(build(data, 0, 1).err(), Some(BuildError::EdgeListOutOfRange));
}

#[test]
fn face_error_comes_before_texture_error() {
    let mut data = level();
    data.textures[1].width = 17;
    data.faces[2].texinfo_id = 9;
    assert_eq!(build(data, 0, 3).err(), Some(BuildError::TexInfoOutOfRange));
}

#[test]
fn failed_face_leaves_buffers_unchanged() {
    let mut data = level();
    data.faces[0].lightmap_id = Some(63);
    let mut vertices = vec![7];
    let mut lightmaps = Vec::new();
    let r = create_brush_render_face(&data, 0, &mut vertices, &mut lightmaps);
    assert_eq!(r, Err(BuildError::LightmapOutOfRange));
    assert_eq!(vertices, vec![7]);
    assert!(lightmaps.is_empty());
}

#[test]
fn render_binds_lightmaps_and_lanes() {
    let r = build(level(), 0, 2).unwrap();
    let draws = r.render(0, &[400, 600]);
    assert_eq!(draws[0].lightmap, Some(0));
    assert_eq!(draws[1].lightmap, Some(1));
    assert_eq!(draws[0].light_lanes, [Some(400), None, None, None]);
    assert_eq!((draws[1].vertex_start, draws[1].vertex_count), (6, 9));
    let mut data = level();
    data.faces[0].lightmap_id = None;
    let r = build(data, 0, 1).unwrap();
    assert_eq!(r.render(0, &[])[0].lightmap, None);
    assert_eq!(r.render(0, &[])[0].light_lanes, [None; 4]);
}

#[test]
fn animation_frame_follows_time() {
    let mut data = level();
    data.textures.push(texture(16, 16, vec![]));
    data.textures[0].frames = vec![0, 1, 2];
    let r = build(data, 0, 1).unwrap();
    let frame = |t: u64| r.render(t, &[])[0].texture;
    assert_eq!(frame(0), 0);
    assert_eq!(frame(FRAME_TIME_MS - 1), 0);
    assert_eq!(frame(FRAME_TIME_MS), 1);
    assert_eq!(frame(2 * FRAME_TIME_MS + 50), 2);
    assert_eq!(frame(3 * FRAME_TIME_MS), 0);
    assert_eq!(frame(1234), frame(1234));
    assert_eq!(r.render(1234, &[1])[0].texture, r.render(1234, &[9, 9])[0].texture);
}

#[test]
fn still_texture_is_its_own_frame() {
    let data = level();
    assert_eq!(data.texture_frame_for_time(1, 5_000_000), 1);
    let mut data = level();
    data.textures[1].frames = vec![1, 0];
    assert_eq!(data.texture_frame_for_time(1, 200), 0);
    assert_eq!(data.texture_frame_for_time(1, 400), 1);
}

#[test]
fn model_shares_level_data() {
    let data = Rc::new(level());
    let m = BspModel::new(Rc::clone(&data), 0, 3);
    assert!(Rc::ptr_eq(&m.bsp_data(), &data));
    let r = BrushRenderer::new(&m).unwrap();
    assert!(Rc::ptr_eq(&r.bsp_data, &data));
}
