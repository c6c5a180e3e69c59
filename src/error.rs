//! Why a renderer could not be built from a level.

use vstd::prelude::*;

verus! {

/// A construction-time failure. Any of these makes the whole model unusable:
/// no part of a level is rendered from malformed data.
#[derive(Clone, Copy, Debug, PartialEq, Eq)]
pub enum BuildError {
    /// A face id past the end of the face list.
    FaceOutOfRange,
    /// A face names a texture projection record that does not exist.
    TexInfoOutOfRange,
    /// A texture projection record names a texture that does not exist.
    TextureOutOfRange,
    /// A face's edge loop runs past the end of the edge list.
    EdgeListOutOfRange,
    /// An edge list entry names an edge that does not exist.
    EdgeOutOfRange,
    /// An edge names a vertex that does not exist.
    VertexOutOfRange,
    /// A face's light samples run past the end of the sample buffer.
    LightmapOutOfRange,
    /// A texture's size or mipmap planes do not agree.
    MalformedTexture,
    /// A texture's animation cycle names a texture that does not exist.
    AnimationFrameOutOfRange,
}

} // verus!
