//! The dissolve effect's tunable parameter block.
//!
//! `DissolveParams` is the fixed-layout state handed to the rendering
//! pipeline each frame: burn edge color, dissolve amount, and burn edge
//! width, followed by explicit padding so the packed block is a 16-byte
//! multiple, as the uniform-buffer transfer mechanism requires.

use vstd::prelude::*;

verus! {

/// One full unit of the fixed-point scale used for every effect scalar:
/// a stored value of `FIXED_ONE` stands for 1.0, `FIXED_ONE / 2` for 0.5.
pub const FIXED_ONE: u32 = 1_000_000;

/// Default burn edge width: 0.04 of texture space, in fixed-point units.
pub const DEFAULT_BURN_SIZE: u32 = 40_000;

/// An RGBA color with each channel in fixed-point units
/// (`FIXED_ONE` = channel intensity 1.0).
#[derive(Clone, Copy, Debug, PartialEq, Eq)]
pub struct ColorRgba {
    pub r: u32,
    pub g: u32,
    pub b: u32,
    pub a: u32,
}

/// Shader uniforms controlling the dissolve and burn edge effect.
///
/// `dissolve_value` ranges over `[0, FIXED_ONE]` — 0 is fully visible,
/// `FIXED_ONE` fully dissolved — but the block does not validate writes
/// itself; writers must keep the value in range (the animator clamps from
/// above, and `add_dissolve_clamped` is the clamping manual write path).
#[derive(Clone, Copy, Debug, PartialEq, Eq)]
pub struct DissolveParams {
    /// Color applied at the dissolving edges; default opaque orange.
    pub burn_color: ColorRgba,
    /// Amount of dissolution, 0 (fully visible) to `FIXED_ONE` (dissolved).
    pub dissolve_value: u32,
    /// Width of the burn edge as a fraction of texture space.
    pub burn_size: u32,
    /// Explicit filler keeping the packed block 16-byte aligned.
    pub padding: (u32, u32),
}

/// The default parameter block: opaque orange burn color, no dissolution,
/// burn edge width 0.04, zeroed padding.
pub open spec fn default_params() -> DissolveParams {
    DissolveParams {
        burn_color: ColorRgba { r: FIXED_ONE, g: 400_000, b: 0, a: FIXED_ONE },
        dissolve_value: 0,
        burn_size: DEFAULT_BURN_SIZE,
        padding: (0, 0),
    }
}

impl Default for DissolveParams {
    /// Defaults: `burn_color` = (1.0, 0.4, 0.0, 1.0), `dissolve_value` = 0,
    /// `burn_size` = 0.04.
    fn default() -> (d: Self)
        ensures
            d == default_params(),
    {
        DissolveParams {
            burn_color: ColorRgba { r: FIXED_ONE, g: 400_000, b: 0, a: FIXED_ONE },
            dissolve_value: 0,
            burn_size: DEFAULT_BURN_SIZE,
            padding: (0, 0),
        }
    }
}

/// `v + d`, clamped from above at full dissolution.
pub open spec fn dissolve_plus_clamped(v: u32, d: u32) -> u32 {
    if v + d > FIXED_ONE {
        FIXED_ONE
    } else {
        (v + d) as u32
    }
}

impl DissolveParams {
    /// The manual write path for the dissolve amount: raises it by `delta`
    /// and clamps at `FIXED_ONE`. The result never exceeds full dissolution,
    /// and — the stored value being unsigned — never drops below zero;
    /// nothing else in the block changes.
    pub fn add_dissolve_clamped(&mut self, delta: u32)
        ensures
            final(self).dissolve_value == dissolve_plus_clamped(
                old(self).dissolve_value,
                delta,
            ),
            final(self).dissolve_value <= FIXED_ONE,
            final(self).burn_color == old(self).burn_color,
            final(self).burn_size == old(self).burn_size,
            final(self).padding == old(self).padding,
    {
        let sum: u64 = self.dissolve_value as u64 + delta as u64;
        if sum > FIXED_ONE as u64 {
            self.dissolve_value = FIXED_ONE;
        } else {
            self.dissolve_value = sum as u32;
        }
    }

    /// The packed uniform block as a sequence of 32-bit words, in the fixed
    /// wire order: the four color channels, the dissolve amount, the burn
    /// edge width, then the two padding words.
    pub open spec fn uniform_seq(self) -> Seq<u32> {
        seq![
            self.burn_color.r,
            self.burn_color.g,
            self.burn_color.b,
            self.burn_color.a,
            self.dissolve_value,
            self.burn_size,
            self.padding.0,
            self.padding.1,
        ]
    }

    /// Packs the block for uniform transfer: eight 32-bit words (32 bytes).
    pub fn uniform_words(&self) -> (w: Vec<u32>)
        ensures
            w@ == self.uniform_seq(),
    {
        let mut w: Vec<u32> = Vec::new();
        w.push(self.burn_color.r);
        w.push(self.burn_color.g);
        w.push(self.burn_color.b);
        w.push(self.burn_color.a);
        w.push(self.dissolve_value);
        w.push(self.burn_size);
        w.push(self.padding.0);
        w.push(self.padding.1);
        proof {
            assert(w@ =~= self.uniform_seq());
        }
        w
    }
}

/// Law: the packed uniform block's byte length is a whole multiple of the
/// 16-byte alignment the uniform-buffer transfer requires, for every
/// parameter block.
pub proof fn lemma_uniform_block_aligned(p: DissolveParams)
    ensures
        (p.uniform_seq().len() * 4) % 16 == 0,
{
}

} // verus!
