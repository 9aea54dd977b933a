//! The shareable dissolve material: a base color texture, an optional noise
//! texture driving the dissolve pattern, and one owned parameter block.

use vstd::prelude::*;
use crate::params::DissolveParams;
use crate::params::default_params;

verus! {

/// Opaque handle to a 2D image resource owned by the host's asset store.
/// The id 0 is the host's blank default image.
#[derive(Clone, Copy, Debug, PartialEq, Eq)]
pub struct TextureHandle {
    pub id: u64,
}

impl Default for TextureHandle {
    /// The host's blank default image handle.
    fn default() -> (t: Self)
        ensures
            t.id == 0,
    {
        TextureHandle { id: 0 }
    }
}

/// How a material's output is blended over what is already rendered.
#[derive(Clone, Copy, Debug, PartialEq, Eq, Structural)]
pub enum AlphaMode2d {
    /// The material's output replaces what is behind it.
    Opaque,
    /// The material's output is alpha-blended over what is behind it.
    Blend,
}

/// Binding slot of the base color texture in the fragment program.
pub const COLOR_TEXTURE_SLOT: u32 = 0;

/// Binding slot of the base color texture's sampler.
pub const COLOR_SAMPLER_SLOT: u32 = 1;

/// Binding slot of the noise texture driving the dissolve pattern.
pub const NOISE_TEXTURE_SLOT: u32 = 2;

/// Binding slot of the noise texture's sampler.
pub const NOISE_SAMPLER_SLOT: u32 = 3;

/// Binding slot of the parameter block uniform.
pub const PARAMS_UNIFORM_SLOT: u32 = 4;

/// A 2D material for dissolve and burn effects on meshes.
///
/// A material is a shareable resource: it is stored in a
/// [`crate::registry::MaterialRegistry`] behind a stable handle, and every
/// drawable object referencing that handle observes the same parameter
/// block, including in-place rewrites by an animator.
#[derive(Clone, Copy, Debug, PartialEq, Eq)]
pub struct Dissolve2DMaterial {
    /// Base color texture; absent means the rendering pipeline falls back
    /// to its own default.
    pub color_texture: Option<TextureHandle>,
    /// Noise texture for the dissolve pattern; materials left without one
    /// are given a shared default by the startup pass.
    pub noise_texture: Option<TextureHandle>,
    /// The parameter block owned by this material (never shared between
    /// materials).
    pub props: DissolveParams,
}

impl Dissolve2DMaterial {
    /// Creates a material from its parts; no validation is performed.
    pub fn new(
        color_texture: Option<TextureHandle>,
        noise_texture: Option<TextureHandle>,
        props: DissolveParams,
    ) -> (m: Self)
        ensures
            m.color_texture == color_texture,
            m.noise_texture == noise_texture,
            m.props == props,
    {
        Dissolve2DMaterial { color_texture, noise_texture, props }
    }

    /// Path of the fragment program this material binds to; fixed at
    /// compile time, not data-driven.
    pub fn fragment_shader() -> (p: &'static str)
        ensures
            p@ == "shaders/dissolve_2d.wgsl"@,
    {
        "shaders/dissolve_2d.wgsl"
    }

    /// Alpha blending is always enabled: the burn edge is translucent.
    pub fn alpha_mode(&self) -> (m: AlphaMode2d)
        ensures
            m == AlphaMode2d::Blend,
    {
        AlphaMode2d::Blend
    }
}

impl Default for Dissolve2DMaterial {
    /// Defaults: the host's blank color texture, no noise texture yet, and
    /// the default parameter block.
    fn default() -> (m: Self)
        ensures
            m.color_texture == Some(TextureHandle { id: 0 }),
            m.noise_texture is None,
            m.props == default_params(),
    {
        Dissolve2DMaterial {
            color_texture: Some(TextureHandle { id: 0 }),
            noise_texture: None,
            props: DissolveParams::default(),
        }
    }
}

/// Path, under the host's asset root, of the shared default noise texture
/// that the startup pass assigns to materials missing one.
pub fn default_noise_texture_path() -> (p: &'static str)
    ensures
        p@ == "textures/noise.png"@,
{
    "textures/noise.png"
}

} // verus!
