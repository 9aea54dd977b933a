//! A screen-space dissolve/burn effect for 2D rendered meshes.
//!
//! The crate models the effect's state and its per-frame update protocol:
//! a fixed-layout parameter block ([`params::DissolveParams`]), a shareable
//! material combining textures with one parameter block
//! ([`material::Dissolve2DMaterial`]), a handle-keyed registry of materials
//! ([`registry::MaterialRegistry`]), a time-driven flash-in animator
//! ([`animator::FlashIn`]), and a one-shot pass that gives every registered
//! material a usable noise texture.
//!
//! All scalar effect values are fixed-point: [`params::FIXED_ONE`] stands
//! for 1.0. Time is measured in caller-chosen integer units (for example
//! microseconds); only ratios of elapsed time to a duration matter.

pub mod animator;
pub mod material;
pub mod params;
pub mod registry;

pub use animator::DrawableObject;
pub use animator::FlashIn;
pub use animator::animate_flash_in;
pub use material::AlphaMode2d;
pub use material::Dissolve2DMaterial;
pub use material::TextureHandle;
pub use params::ColorRgba;
pub use params::DissolveParams;
pub use params::FIXED_ONE;
pub use registry::MaterialHandle;
pub use registry::MaterialRegistry;
pub use registry::apply_default_dissolve_texture;

use vstd::prelude::*;
use crate::animator::flash_in_pass;
use crate::registry::material_seen;
use crate::registry::with_default_noise;

verus! {

/// The whole dissolve effect wired together: the shared material store and
/// the drawable objects the effect animates.
///
/// The host drives it in the order the effect's frame protocol fixes: after
/// the startup-time material insertions, [`Dissolve2DEffect::startup`] runs
/// once; each frame thereafter, any direct input writes go through the
/// registry first, then [`Dissolve2DEffect::run_frame`] advances every
/// attached flash-in, and the rendering pipeline only reads the parameter
/// blocks that the frame left behind.
pub struct Dissolve2DEffect {
    /// The shared store of materials, keyed by stable handles.
    pub registry: MaterialRegistry,
    /// The drawable objects, each referencing a registered material and
    /// carrying at most one attached flash-in animator.
    pub objects: Vec<DrawableObject>,
}

impl Dissolve2DEffect {
    /// An empty scene: no materials registered, no objects.
    pub fn new() -> (e: Self)
        ensures
            e.registry@ == Seq::<Dissolve2DMaterial>::empty(),
            e.objects@ == Seq::<DrawableObject>::empty(),
    {
        Dissolve2DEffect { registry: MaterialRegistry::new(), objects: Vec::new() }
    }

    /// Registers a material and returns the handle drawable objects will
    /// reference it by.
    pub fn add_material(&mut self, m: Dissolve2DMaterial) -> (h: MaterialHandle)
        ensures
            final(self).registry@ == old(self).registry@.push(m),
            h.index == old(self).registry@.len(),
            final(self).objects@ == old(self).objects@,
    {
        self.registry.insert(m)
    }

    /// Adds a drawable object rendering with the material behind `h`,
    /// optionally with a flash-in attached, and returns the object's index.
    pub fn spawn(&mut self, h: MaterialHandle, flash_in: Option<FlashIn>) -> (id: usize)
        ensures
            final(self).objects@ == old(self).objects@.push(
                DrawableObject { material: h, flash_in },
            ),
            id == old(self).objects@.len(),
            final(self).registry@ == old(self).registry@,
    {
        let id = self.objects.len();
        self.objects.push(DrawableObject { material: h, flash_in });
        id
    }

    /// The one-shot startup phase: resolves every registered material still
    /// missing a noise texture to the shared default `texture`.
    pub fn startup(&mut self, texture: TextureHandle)
        ensures
            final(self).registry@ == with_default_noise(old(self).registry@, texture),
            final(self).objects@ == old(self).objects@,
    {
        apply_default_dissolve_texture(&mut self.registry, texture);
    }

    /// The per-frame animation phase: one animator pass over all objects
    /// with the frame's elapsed time `dt`.
    pub fn run_frame(&mut self, dt: u64)
        requires
            forall|j: int|
                0 <= j < old(self).objects@.len() && old(self).objects@[j].flash_in is Some
                    ==> old(self).objects@[j].flash_in->Some_0.elapsed + dt <= u64::MAX,
        ensures
            (final(self).objects@, final(self).registry@) == flash_in_pass(
                old(self).objects@,
                old(self).registry@,
                dt,
            ),
    {
        animate_flash_in(&mut self.objects, &mut self.registry, dt);
    }

    /// What the rendering pipeline reads for one drawable object: the
    /// material behind the object's handle, or `None` when the object index
    /// or the handle is dead.
    pub fn observed_material(&self, object_index: usize) -> (r: Option<&Dissolve2DMaterial>)
        ensures
            object_index < self.objects@.len() ==> match r {
                Some(m) => material_seen(
                    self.registry@,
                    self.objects@[object_index as int].material,
                ) == Some(*m),
                None => material_seen(
                    self.registry@,
                    self.objects@[object_index as int].material,
                ) is None,
            },
            object_index >= self.objects@.len() ==> r is None,
    {
        if object_index < self.objects.len() {
            self.registry.get(self.objects[object_index].material)
        } else {
            None
        }
    }
}

} // verus!
