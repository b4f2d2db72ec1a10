//! Options that the trainer hands to the renderer.

use vstd::prelude::*;

verus! {

/// The highest degree of the spherical harmonics that colours are kept in.
pub const SH_DEGREE_MAX: u32 = 3;

/// Options of a render.
#[derive(Clone, Copy, Debug, PartialEq, Eq, Structural)]
pub struct Gaussian3dRenderOptions {
    /// The highest degree of the spherical harmonics that a render uses.
    pub colors_sh_degree_max: u32,
}

impl Gaussian3dRenderOptions {
    /// The degree is one that the renderer supports.
    pub open spec fn is_valid(self) -> bool {
        self.colors_sh_degree_max <= SH_DEGREE_MAX
    }

    /// The degree after one increase: one more, up to the highest.
    pub open spec fn spec_increased(self) -> Self {
        Gaussian3dRenderOptions {
            colors_sh_degree_max: if self.colors_sh_degree_max < SH_DEGREE_MAX {
                (self.colors_sh_degree_max + 1) as u32
            } else {
                SH_DEGREE_MAX
            },
        }
    }

    /// Options that render with degrees up to `colors_sh_degree_max`.
    pub fn new(colors_sh_degree_max: u32) -> (options: Self)
        ensures
            options == (Gaussian3dRenderOptions { colors_sh_degree_max }),
    {
        Gaussian3dRenderOptions { colors_sh_degree_max }
    }

    /// The options with `colors_sh_degree_max` in place of their own.
    pub fn with_colors_sh_degree_max(self, colors_sh_degree_max: u32) -> (options: Self)
        ensures
            options == (Gaussian3dRenderOptions { colors_sh_degree_max }),
    {
        Gaussian3dRenderOptions { colors_sh_degree_max }
    }

    /// The options with the degree raised by one, up to the highest.
    pub fn increased(self) -> (options: Self)
        ensures
            options == self.spec_increased(),
    {
        if self.colors_sh_degree_max < SH_DEGREE_MAX {
            Gaussian3dRenderOptions { colors_sh_degree_max: self.colors_sh_degree_max + 1 }
        } else {
            Gaussian3dRenderOptions { colors_sh_degree_max: SH_DEGREE_MAX }
        }
    }
}

/// Raising the degree never lowers it and never leaves the supported degrees.
pub proof fn lemma_increase_is_monotonic(options: Gaussian3dRenderOptions)
    ensures
        options.spec_increased().is_valid(),
        options.is_valid() ==> options.colors_sh_degree_max
            <= options.spec_increased().colors_sh_degree_max,
        options.is_valid() ==> options.spec_increased().colors_sh_degree_max
            <= options.colors_sh_degree_max + 1,
{
}

} // verus!
