use vstd::prelude::*;

use crate::assoc::assoc_contains;
use crate::assoc::assoc_get;
use crate::assoc::spec_assoc;
use crate::ids::as_id;
use crate::ids::spec_as_id;

verus! {

/// The registry of loaded textures, keyed by canonical id. Of each texture
/// it keeps the one fact the pipeline classifies faces by: the smallest
/// alpha value over all texels. Decoding image bytes happens outside; the
/// registry receives the raw RGBA data.
pub struct TextureLoader {
    pub textures: Vec<(String, u8)>,
}

/// The alpha stored for a texture: 0 when the id is unknown.
pub open spec fn spec_alpha_of(textures: Seq<(String, u8)>, id: Seq<char>) -> u8 {
    match spec_assoc(textures, id) {
        Some(a) => a,
        None => 0,
    }
}

impl TextureLoader {
    pub fn new() -> (r: TextureLoader)
        ensures
            r.textures.len() == 0,
    {
        TextureLoader { textures: Vec::new() }
    }

    pub fn contains(&self, texture: &str) -> (r: bool)
        ensures
            r == (spec_assoc(self.textures@, spec_as_id(texture@)) is Some),
    {
        let key = as_id(texture);
        assoc_contains(&self.textures, key.as_str())
    }

    /// Registers a texture from its decoded RGBA bytes, four bytes per
    /// texel: the minimum alpha over the texels is kept under the canonical
    /// id. A newer entry shadows an older one of the same id.
    pub fn load(&mut self, texture: &str, rgba: &Vec<u8>)
        requires
            rgba.len() < 100000000,
        ensures
            final(self).textures.len() == old(self).textures.len() + 1,
            final(self).textures[0].0@ == spec_as_id(texture@),
            final(self).textures@.skip(1) == old(self).textures@,
            rgba.len() < 4 ==> final(self).textures[0].1 == 0,
            rgba.len() >= 4 ==> (forall|j: int|
                0 <= j < rgba@.len() && j % 4 == 3 ==> final(self).textures[0].1 <= #[trigger] rgba@[j])
                && (exists|j: int|
                0 <= j < rgba@.len() && j % 4 == 3 && final(self).textures[0].1 == #[trigger] rgba@[j]),
    {
        let alpha = min_alpha(rgba);
        let key = as_id(texture);
        self.textures.insert(0, (key, alpha));
    }

    /// The minimum alpha of a loaded texture; an unknown id counts as fully
    /// transparent.
    pub fn get_alpha(&self, texture: &str) -> (r: u8)
        ensures
            r == spec_alpha_of(self.textures@, spec_as_id(texture@)),
    {
        let key = as_id(texture);
        match assoc_get(&self.textures, key.as_str()) {
            Some(a) => *a,
            None => 0,
        }
    }
}

/// The smallest alpha byte over four-byte RGBA texels; 0 when there is no
/// complete texel.
pub fn min_alpha(rgba: &Vec<u8>) -> (r: u8)
    requires
        rgba.len() < 100000000,
    ensures
        rgba.len() < 4 ==> r == 0,
        rgba.len() >= 4 ==> (forall|j: int|
            0 <= j < rgba@.len() && j % 4 == 3 ==> r <= #[trigger] rgba@[j]) && (exists|j: int|
            0 <= j < rgba@.len() && j % 4 == 3 && r == #[trigger] rgba@[j]),
{
    let pixels = rgba.len() / 4;
    if pixels == 0 {
        return 0;
    }
    let mut r: u8 = rgba[3];
    let mut i: usize = 1;
    while i < pixels
        invariant
            1 <= i <= pixels,
            pixels == rgba@.len() / 4,
            4 * pixels <= rgba@.len(),
            rgba@.len() >= 4,
            rgba@.len() < 100000000,
            forall|j: int| 0 <= j < 4 * i && j % 4 == 3 ==> r <= #[trigger] rgba@[j],
            exists|j: int| 0 <= j < 4 * i && j % 4 == 3 && r == #[trigger] rgba@[j],
        decreases pixels - i,
    {
        let a = rgba[4 * i + 3];
        if a < r {
            r = a;
        }
        i += 1;
    }
    proof {
        assert forall|j: int| 0 <= j < rgba@.len() && j % 4 == 3 implies r <= #[trigger] rgba@[j] by {
            assert(j < 4 * pixels || j >= 4 * pixels);
            if j >= 4 * pixels {
                // A complete texel would extend past the data.
                assert(j <= rgba@.len() - 1);
                assert(j == 4 * (j / 4) + 3);
                assert(j / 4 >= pixels);
                assert(4 * (j / 4) + 4 <= rgba@.len()) by {
                    assert(j / 4 < (rgba@.len() + 1) / 4 || 4 * (j / 4) + 4 <= rgba@.len());
                };
                assert(false);
            }
        }
    }
    r
}

} // verus!
