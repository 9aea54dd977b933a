//! The shared store of dissolve materials, keyed by opaque handles.
//!
//! All mutation of a registered material is funneled through the registry,
//! so every drawable object referencing one handle observes the same state.
//! Handles are stable: the registry only grows while it lives (materials
//! are released together with the registry at scene teardown).

use vstd::prelude::*;
use crate::material::Dissolve2DMaterial;
use crate::material::TextureHandle;
use crate::params::DissolveParams;

verus! {

/// Opaque stable handle to a material stored in a [`MaterialRegistry`].
#[derive(Clone, Copy, Debug, PartialEq, Eq)]
pub struct MaterialHandle {
    pub index: usize,
}

/// The shared store of [`Dissolve2DMaterial`] values.
pub struct MaterialRegistry {
    materials: Vec<Dissolve2DMaterial>,
}

impl View for MaterialRegistry {
    type V = Seq<Dissolve2DMaterial>;

    closed spec fn view(&self) -> Seq<Dissolve2DMaterial> {
        self.materials@
    }
}

/// The material a reader holding `h` observes in `mats`: `None` when the
/// handle is not live in this store.
pub open spec fn material_seen(
    mats: Seq<Dissolve2DMaterial>,
    h: MaterialHandle,
) -> Option<Dissolve2DMaterial> {
    if h.index < mats.len() {
        Some(mats[h.index as int])
    } else {
        None
    }
}

/// `m` with its dissolve amount replaced by `v`; everything else unchanged.
pub open spec fn with_dissolve(m: Dissolve2DMaterial, v: u32) -> Dissolve2DMaterial {
    Dissolve2DMaterial {
        color_texture: m.color_texture,
        noise_texture: m.noise_texture,
        props: DissolveParams {
            burn_color: m.props.burn_color,
            dissolve_value: v,
            burn_size: m.props.burn_size,
            padding: m.props.padding,
        },
    }
}

/// The store after writing dissolve amount `v` through handle `h`: the
/// addressed material is rewritten in place; a dead handle changes nothing.
pub open spec fn write_dissolve_spec(
    mats: Seq<Dissolve2DMaterial>,
    h: MaterialHandle,
    v: u32,
) -> Seq<Dissolve2DMaterial> {
    if h.index < mats.len() {
        mats.update(h.index as int, with_dissolve(mats[h.index as int], v))
    } else {
        mats
    }
}

/// `m` with an absent noise texture resolved to `tex`; a material that
/// already has one is left untouched.
pub open spec fn with_default_noise_one(
    m: Dissolve2DMaterial,
    tex: TextureHandle,
) -> Dissolve2DMaterial {
    if m.noise_texture is Some {
        m
    } else {
        Dissolve2DMaterial {
            color_texture: m.color_texture,
            noise_texture: Some(tex),
            props: m.props,
        }
    }
}

/// The store after the default-noise pass: every material missing a noise
/// texture now carries `tex`; all others are untouched.
pub open spec fn with_default_noise(
    mats: Seq<Dissolve2DMaterial>,
    tex: TextureHandle,
) -> Seq<Dissolve2DMaterial> {
    mats.map_values(|m: Dissolve2DMaterial| with_default_noise_one(m, tex))
}

impl MaterialRegistry {
    /// An empty store.
    pub fn new() -> (r: Self)
        ensures
            r@ == Seq::<Dissolve2DMaterial>::empty(),
    {
        MaterialRegistry { materials: Vec::new() }
    }

    /// How many materials are registered.
    pub fn len(&self) -> (n: usize)
        ensures
            n == self@.len(),
    {
        self.materials.len()
    }

    /// Registers a material and returns its stable handle.
    pub fn insert(&mut self, m: Dissolve2DMaterial) -> (h: MaterialHandle)
        ensures
            final(self)@ == old(self)@.push(m),
            h.index == old(self)@.len(),
    {
        let h = MaterialHandle { index: self.materials.len() };
        self.materials.push(m);
        h
    }

    /// Reads the material behind `h`; `None` for a dead handle.
    pub fn get(&self, h: MaterialHandle) -> (r: Option<&Dissolve2DMaterial>)
        ensures
            match r {
                Some(m) => material_seen(self@, h) == Some(*m),
                None => material_seen(self@, h) is None,
            },
    {
        if h.index < self.materials.len() {
            Some(&self.materials[h.index])
        } else {
            None
        }
    }

    /// The single funnel for per-frame dissolve writes: rewrites the
    /// addressed material's dissolve amount in place and reports whether
    /// the handle was live (a dead handle changes nothing).
    pub fn write_dissolve(&mut self, h: MaterialHandle, value: u32) -> (hit: bool)
        ensures
            final(self)@ == write_dissolve_spec(old(self)@, h, value),
            hit == (h.index < old(self)@.len()),
    {
        if h.index < self.materials.len() {
            let mut m = self.materials[h.index];
            m.props.dissolve_value = value;
            self.materials.set(h.index, m);
            true
        } else {
            false
        }
    }
}

/// The one-shot startup pass: gives every registered material that still
/// has no noise texture the shared default `texture`, so the dissolve
/// pattern is always driven by a usable image. Materials that already have
/// a noise texture are left entirely untouched, so re-running the pass is
/// safe.
pub fn apply_default_dissolve_texture(
    registry: &mut MaterialRegistry,
    texture: TextureHandle,
)
    ensures
        final(registry)@ == with_default_noise(old(registry)@, texture),
        forall|j: int|
            0 <= j < old(registry)@.len() && old(registry)@[j].noise_texture is Some
                ==> final(registry)@[j] == old(registry)@[j],
        forall|j: int|
            0 <= j < old(registry)@.len() && old(registry)@[j].noise_texture is None
                ==> final(registry)@[j].noise_texture == Some(texture),
{
    let ghost mats0 = registry@;
    let n = registry.materials.len();
    let mut i: usize = 0;
    while i < n
        invariant
            n == mats0.len(),
            i <= n,
            registry@.len() == n,
            forall|j: int| 0 <= j < i ==> registry@[j] == with_default_noise(mats0, texture)[j],
            forall|j: int| i <= j < n ==> registry@[j] == mats0[j],
        decreases n - i,
    {
        if registry.materials[i].noise_texture.is_none() {
            let mut m = registry.materials[i];
            m.noise_texture = Some(texture);
            registry.materials.set(i, m);
        }
        i = i + 1;
    }
    proof {
        assert(registry@ =~= with_default_noise(mats0, texture));
    }
}

/// Law: of two dissolve writes through one handle, the last one wins — the
/// store ends exactly as if only the second write had happened.
pub proof fn lemma_write_dissolve_overwrite(
    mats: Seq<Dissolve2DMaterial>,
    h: MaterialHandle,
    a: u32,
    b: u32,
)
    ensures
        write_dissolve_spec(write_dissolve_spec(mats, h, a), h, b)
            == write_dissolve_spec(mats, h, b),
{
    if h.index < mats.len() {
        assert(write_dissolve_spec(write_dissolve_spec(mats, h, a), h, b)
            =~= write_dissolve_spec(mats, h, b));
    }
}

/// Law: the default-noise pass is idempotent — after one run every material
/// has a noise texture, so a second run changes nothing.
pub proof fn lemma_default_pass_idempotent(
    mats: Seq<Dissolve2DMaterial>,
    tex: TextureHandle,
)
    ensures
        with_default_noise(with_default_noise(mats, tex), tex) == with_default_noise(mats, tex),
{
    let once = with_default_noise(mats, tex);
    assert forall|i: int|
        0 <= i < once.len() implies with_default_noise(once, tex)[i] == once[i] by {
        assert(once[i] == with_default_noise_one(mats[i], tex));
    };
    assert(with_default_noise(once, tex) =~= once);
}

} // verus!
