//! Choice of the displayed frame of an animated texture.
//!
//! The level data describes each animation as a cycle of texture ids
//! (`BspTexture::frames`); this module fixes the timing rule that resolves a
//! time to an entry of the cycle: every entry is shown for `FRAME_TIME_MS`
//! milliseconds, in order, and the cycle repeats. The rule is this library's
//! choice of how a level's cycle is played, not something the level stores.

use crate::bsp::{BspData, BspTexture};
use vstd::prelude::*;

verus! {

/// Each frame of an animation cycle is shown for this many milliseconds.
pub const FRAME_TIME_MS: u64 = 200;

/// The texture shown for texture `tex_id` (whose record is `tex`) at `time_ms`
/// milliseconds of simulation time: the texture itself when it does not
/// animate, else the cycle entry for the current frame period.
pub open spec fn frame_for_time(tex: BspTexture, tex_id: int, time_ms: int) -> int {
    let n = tex.frames@.len();
    if n == 0 {
        tex_id
    } else {
        tex.frames@[(time_ms / FRAME_TIME_MS as int) % n as int] as int
    }
}

impl BspData {
    /// Resolves the frame of texture `tex_id` that is displayed at `time_ms`.
    pub fn texture_frame_for_time(&self, tex_id: usize, time_ms: u64) -> (r: usize)
        requires
            tex_id < self.textures@.len(),
        ensures
            r == frame_for_time(self.textures@[tex_id as int], tex_id as int, time_ms as int),
    {
        let frames = &self.textures[tex_id].frames;
        let n = frames.len();
        if n == 0 {
            tex_id
        } else {
            let period = time_ms / FRAME_TIME_MS;
            let slot = (period % n as u64) as usize;
            frames[slot]
        }
    }
}

/// Frame choice repeats with the length of the cycle: adding one full cycle
/// of time shows the same texture.
pub proof fn lemma_frame_periodic(tex: BspTexture, tex_id: int, time_ms: int)
    requires
        time_ms >= 0,
    ensures
        frame_for_time(tex, tex_id, time_ms) == frame_for_time(
            tex,
            tex_id,
            time_ms + FRAME_TIME_MS as int * tex.frames@.len(),
        ),
{
    let n = tex.frames@.len() as int;
    if n > 0 {
        let p = time_ms / 200;
        assert((time_ms + 200 * n) / 200 == p + n) by (nonlinear_arith)
            requires
                p == time_ms / 200,
                n > 0,
                time_ms >= 0,
        ;
        assert((p + n) % n == p % n) by (nonlinear_arith)
            requires
                n > 0,
                p >= 0,
        ;
    }
}

/// Frame choice depends on the time and the texture's record alone: two
/// levels that agree on the texture give the same frame at the same time.
pub proof fn lemma_frame_deterministic(a: &BspData, b: &BspData, tex_id: int, time_ms: int)
    requires
        0 <= tex_id < a.textures@.len(),
        0 <= tex_id < b.textures@.len(),
        a.textures@[tex_id].frames@ == b.textures@[tex_id].frames@,
    ensures
        frame_for_time(a.textures@[tex_id], tex_id, time_ms) == frame_for_time(
            b.textures@[tex_id],
            tex_id,
            time_ms,
        ),
{
}

} // verus!
