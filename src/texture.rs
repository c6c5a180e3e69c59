//! Validation of texture records before their images are built.

use crate::bsp::{BspData, BspTexture, MIPLEVELS};
use crate::error::BuildError;
use vstd::prelude::*;

verus! {

/// Size along one axis of mipmap level `level` of an image `d` texels across.
pub open spec fn mip_dim(d: int, level: nat) -> int
    decreases level,
{
    if level == 0 {
        d
    } else {
        mip_dim(d, (level - 1) as nat) / 2
    }
}

/// The texture's size fits an image and each mipmap plane holds exactly one
/// byte per texel of its level.
pub open spec fn texture_shape_valid(tex: BspTexture) -> bool {
    &&& 0 < tex.width <= 0xffff
    &&& 0 < tex.height <= 0xffff
    &&& tex.mipmaps@.len() == MIPLEVELS
    &&& forall|l: int|
        0 <= l < MIPLEVELS ==> (#[trigger] tex.mipmaps@[l])@.len() == mip_dim(tex.width as int, l as nat)
            * mip_dim(tex.height as int, l as nat)
}

/// Every frame of the texture's animation cycle exists.
pub open spec fn texture_frames_valid(tex: BspTexture, n_textures: int) -> bool {
    forall|i: int| 0 <= i < tex.frames@.len() ==> (#[trigger] tex.frames@[i]) < n_textures
}

/// The first reason, if any, why the texture cannot be used.
pub open spec fn texture_error(tex: BspTexture, n_textures: int) -> Option<BuildError> {
    if !texture_shape_valid(tex) {
        Some(BuildError::MalformedTexture)
    } else if !texture_frames_valid(tex, n_textures) {
        Some(BuildError::AnimationFrameOutOfRange)
    } else {
        None
    }
}

impl BspData {
    /// The first error among the first `k` textures.
    pub open spec fn first_texture_error(&self, k: int) -> Option<BuildError>
        decreases k,
    {
        if k <= 0 {
            None
        } else {
            match self.first_texture_error(k - 1) {
                Some(e) => Some(e),
                None => texture_error(self.textures@[k - 1], self.textures@.len() as int),
            }
        }
    }

    pub open spec fn textures_error(&self) -> Option<BuildError> {
        self.first_texture_error(self.textures@.len() as int)
    }

    pub open spec fn textures_valid(&self) -> bool {
        forall|t: int|
            0 <= t < self.textures@.len() ==> texture_error(#[trigger] self.textures@[t], self.textures@.len() as int) is None
    }
}

proof fn lemma_first_texture_error_none(data: &BspData, k: int)
    requires
        0 <= k <= data.textures@.len(),
    ensures
        data.first_texture_error(k) is None <==> forall|t: int|
            0 <= t < k ==> texture_error(#[trigger] data.textures@[t], data.textures@.len() as int) is None,
    decreases k,
{
    if k > 0 {
        lemma_first_texture_error_none(data, k - 1);
    }
}

/// Checks the texture's size and mipmap planes, then its animation cycle
/// against the number of textures in the level.
pub fn check_texture(tex: &BspTexture, n_textures: usize) -> (r: Result<(), BuildError>)
    ensures
        r is Ok <==> texture_error(*tex, n_textures as int) is None,
        r matches Err(e) ==> texture_error(*tex, n_textures as int) == Some(e),
{
    if tex.width == 0 || tex.height == 0 || tex.width > 0xffff || tex.height > 0xffff
        || tex.mipmaps.len() != MIPLEVELS {
        return Err(BuildError::MalformedTexture);
    }
    let mut w: usize = tex.width as usize;
    let mut h: usize = tex.height as usize;
    let mut l: usize = 0;
    while l < MIPLEVELS
        invariant
            texture_shape_valid(*tex) <==> forall|m: int|
                l <= m < MIPLEVELS ==> (#[trigger] tex.mipmaps@[m])@.len() == mip_dim(tex.width as int, m as nat)
                    * mip_dim(tex.height as int, m as nat),
            0 < tex.width <= 0xffff,
            0 < tex.height <= 0xffff,
            tex.mipmaps@.len() == MIPLEVELS,
            l <= MIPLEVELS,
            w == mip_dim(tex.width as int, l as nat),
            h == mip_dim(tex.height as int, l as nat),
            w <= 0xffff,
            h <= 0xffff,
        decreases MIPLEVELS - l,
    {
        assert(w * h <= 0xffff * 0xffff) by (nonlinear_arith)
            requires
                w <= 0xffff,
                h <= 0xffff,
        ;
        if tex.mipmaps[l].len() != w * h {
            return Err(BuildError::MalformedTexture);
        }
        w = w / 2;
        h = h / 2;
        l += 1;
    }
    let mut i: usize = 0;
    while i < tex.frames.len()
        invariant
            texture_shape_valid(*tex),
            i <= tex.frames@.len(),
            forall|j: int| 0 <= j < i ==> (#[trigger] tex.frames@[j]) < n_textures,
        decreases tex.frames@.len() - i,
    {
        if tex.frames[i] >= n_textures {
            return Err(BuildError::AnimationFrameOutOfRange);
        }
        i += 1;
    }
    Ok(())
}

/// Checks every texture of the level, in order.
pub fn check_textures(data: &BspData) -> (r: Result<(), BuildError>)
    ensures
        r is Ok <==> data.textures_error() is None,
        r matches Err(e) ==> data.textures_error() == Some(e),
        r is Ok ==> data.textures_valid(),
{
    let n = data.textures.len();
    let mut t: usize = 0;
    while t < n
        invariant
            n == data.textures@.len(),
            t <= n,
            data.first_texture_error(t as int) is None,
        decreases n - t,
    {
        let r = check_texture(&data.textures[t], n);
        if let Err(e) = r {
            proof {
                lemma_first_texture_error_none(data, n as int);
                lemma_first_texture_error_prefix(data, t as int + 1, n as int);
            }
            return Err(e);
        }
        t += 1;
    }
    proof {
        lemma_first_texture_error_none(data, n as int);
    }
    Ok(())
}

proof fn lemma_first_texture_error_prefix(data: &BspData, k: int, n: int)
    requires
        0 <= k <= n,
        data.first_texture_error(k) is Some,
    ensures
        data.first_texture_error(n) == data.first_texture_error(k),
    decreases n - k,
{
    if n > k {
        lemma_first_texture_error_prefix(data, k, n - 1);
    }
}

} // verus!
