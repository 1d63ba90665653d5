//! The texture cache: the sole creation point of textures, keyed by the
//! source image's index within the asset document, so that two primitives
//! referencing the same image share one texture instance.

use vstd::prelude::*;

use std::rc::Rc;

use crate::doc::{ImageData, ImageV};
use crate::error::LoadError;

verus! {

/// The semantic slot a texture fills in the material.
#[derive(Clone, Copy, PartialEq, Eq, Structural, Debug)]
pub enum TextureRole {
    Diffuse,
    Specular,
}

/// The pixel format a texture is kept in, by channel count.
#[derive(Clone, Copy, PartialEq, Eq, Structural, Debug)]
pub enum PixelFormat {
    Rgba,
    Rgb,
    Red,
}

/// One loaded texture: the pixels of a source image together with the role
/// and pixel format fixed when it was first requested. `image_index` is the
/// cache key: the image's index within the asset document.
#[derive(PartialEq, Debug)]
pub struct Texture {
    pub image_index: usize,
    pub role: TextureRole,
    pub format: PixelFormat,
    pub width: u32,
    pub height: u32,
    pub pixels: Vec<u8>,
}

/// The mathematical value of a `Texture`.
#[verifier::ext_equal]
pub struct TexV {
    pub image_index: int,
    pub role: TextureRole,
    pub format: PixelFormat,
    pub width: u32,
    pub height: u32,
    pub pixels: Seq<u8>,
}

impl View for Texture {
    type V = TexV;

    open spec fn view(&self) -> TexV {
        TexV {
            image_index: self.image_index as int,
            role: self.role,
            format: self.format,
            width: self.width,
            height: self.height,
            pixels: self.pixels@,
        }
    }
}

/// The format a base-color image resolves to: four channels stay four, three
/// stay three, one stays one, and anything else is refused.
pub open spec fn diffuse_format_of(channels: u32) -> Option<PixelFormat> {
    if channels == 4 {
        Some(PixelFormat::Rgba)
    } else if channels == 3 {
        Some(PixelFormat::Rgb)
    } else if channels == 1 {
        Some(PixelFormat::Red)
    } else {
        None
    }
}

/// The format a metallic-roughness image resolves to: four channels stay
/// four, and every other count degrades to three rather than failing.
pub open spec fn specular_format_of(channels: u32) -> PixelFormat {
    if channels == 4 {
        PixelFormat::Rgba
    } else {
        PixelFormat::Rgb
    }
}

/// Format resolution by role: strict for the diffuse slot, lenient for the
/// specular slot.
pub open spec fn format_for(role: TextureRole, channels: u32) -> Option<PixelFormat> {
    match role {
        TextureRole::Diffuse => diffuse_format_of(channels),
        TextureRole::Specular => Some(specular_format_of(channels)),
    }
}

/// Resolves the pixel format for `role` and `channels`, exactly as
/// `format_for` says.
pub fn resolve_format(role: TextureRole, channels: u32) -> (r: Option<PixelFormat>)
    ensures
        r == format_for(role, channels),
{
    match role {
        TextureRole::Diffuse => {
            if channels == 4 {
                Some(PixelFormat::Rgba)
            } else if channels == 3 {
                Some(PixelFormat::Rgb)
            } else if channels == 1 {
                Some(PixelFormat::Red)
            } else {
                None
            }
        },
        TextureRole::Specular => {
            if channels == 4 {
                Some(PixelFormat::Rgba)
            } else {
                Some(PixelFormat::Rgb)
            }
        },
    }
}

/// The first cached texture keyed by `idx`, if any.
pub open spec fn cache_find(c: Seq<TexV>, idx: int) -> Option<TexV>
    decreases c.len(),
{
    if c.len() == 0 {
        None
    } else if c[0].image_index == idx {
        Some(c[0])
    } else {
        cache_find(c.drop_first(), idx)
    }
}

/// The texture created for image `idx` with the given role and format.
pub open spec fn made_tex(idx: int, img: ImageV, role: TextureRole, format: PixelFormat) -> TexV {
    TexV {
        image_index: idx,
        role: role,
        format: format,
        width: img.width,
        height: img.height,
        pixels: img.pixels,
    }
}

/// What one cache request does: an index already present returns its texture
/// and leaves the cache alone, whatever role is asked the second time; a new
/// index resolves its format (refusing an unsupported base-color format) and
/// appends exactly one texture.
pub open spec fn cache_step(c: Seq<TexV>, idx: int, img: ImageV, role: TextureRole) -> Result<
    (TexV, Seq<TexV>),
    LoadError,
> {
    match cache_find(c, idx) {
        Some(t) => Ok((t, c)),
        None => match format_for(role, img.channels) {
            Some(f) => Ok((made_tex(idx, img, role, f), c.push(made_tex(idx, img, role, f)))),
            None => Err(LoadError::UnsupportedDiffuseFormat),
        },
    }
}

/// Relies on the `Clone` of `std::rc::Rc`: cloning an `Rc` yields another
/// handle to the same allocation, so the clone's value is the original's.
#[verifier::external_body]
fn clone_texture_handle(t: &Rc<Texture>) -> (r: Rc<Texture>)
    ensures
        r == *t,
{
    t.clone()
}

/// The values behind a list of shared texture handles.
pub open spec fn texs_view(s: Seq<Rc<Texture>>) -> Seq<TexV> {
    s.map_values(|t: Rc<Texture>| t@)
}

/// A load-session texture cache, one entry per distinct source image index,
/// in creation order.
pub struct TextureCache {
    pub loaded: Vec<Rc<Texture>>,
}

impl View for TextureCache {
    type V = Seq<TexV>;

    open spec fn view(&self) -> Seq<TexV> {
        texs_view(self.loaded@)
    }
}

proof fn lemma_cache_find_none(c: Seq<TexV>, idx: int)
    requires
        forall|j: int| 0 <= j < c.len() ==> (#[trigger] c[j]).image_index != idx,
    ensures
        cache_find(c, idx) is None,
    decreases c.len(),
{
    if c.len() > 0 {
        lemma_cache_find_none(c.drop_first(), idx);
    }
}

proof fn lemma_cache_find_at(c: Seq<TexV>, idx: int, i: int)
    requires
        0 <= i < c.len(),
        c[i].image_index == idx,
        forall|j: int| 0 <= j < i ==> (#[trigger] c[j]).image_index != idx,
    ensures
        cache_find(c, idx) == Some(c[i]),
    decreases i,
{
    if i > 0 {
        lemma_cache_find_at(c.drop_first(), idx, i - 1);
    }
}

impl TextureCache {
    /// An empty cache, as each load session starts with.
    pub fn new() -> (c: TextureCache)
        ensures
            c@ == Seq::<TexV>::empty(),
    {
        TextureCache { loaded: Vec::new() }
    }

    /// Returns the shared texture for `image_index`, creating it from
    /// `image` on the first request for that index and reusing it afterwards,
    /// exactly as `cache_step` says.
    pub fn get_or_load(
        &mut self,
        image_index: usize,
        image: &ImageData,
        role: TextureRole,
    ) -> (r: Result<Rc<Texture>, LoadError>)
        ensures
            match cache_step(old(self)@, image_index as int, image@, role) {
                Ok(pair) => r is Ok && r->Ok_0@ == pair.0 && final(self)@ == pair.1,
                Err(e) => r is Err && r->Err_0 == e && final(self)@ == old(self)@,
            },
    {
        let n = self.loaded.len();
        let mut i: usize = 0;
        while i < n
            invariant
                n == self.loaded.len(),
                0 <= i <= n,
                *self == *old(self),
                forall|j: int| 0 <= j < i ==> (#[trigger] self@[j]).image_index != image_index as int,
            decreases n - i,
        {
            if self.loaded[i].image_index == image_index {
                proof {
                    lemma_cache_find_at(self@, image_index as int, i as int);
                }
                return Ok(clone_texture_handle(&self.loaded[i]));
            }
            i += 1;
        }
        proof {
            lemma_cache_find_none(self@, image_index as int);
        }
        let format = match resolve_format(role, image.channels) {
            Some(f) => f,
            None => {
                return Err(LoadError::UnsupportedDiffuseFormat);
            },
        };
        let tex = Rc::new(
            Texture {
                image_index: image_index,
                role: role,
                format: format,
                width: image.width,
                height: image.height,
                pixels: image.pixels.clone(),
            },
        );
        let handle = clone_texture_handle(&tex);
        self.loaded.push(tex);
        proof {
            assert(self@ =~= old(self)@.push(
                made_tex(image_index as int, image@, role, format),
            ));
        }
        Ok(handle)
    }
}

} // verus!
