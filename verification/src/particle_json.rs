//! The particle system's configuration as it is written down by its users.

use vstd::prelude::*;
use crate::geometry::Rect2D;
use crate::geometry::Scalar;

verus! {

/// The most kinds of particle, and the most frames of one animation.
pub const MAX_PARTICLE_ANIMATIONS: usize = 128;

/// One animation: its frames as rectangles of the atlas, in pixels.
pub struct ParticleSystemJSONAnimation {
    pub name: String,
    pub id: u32,
    pub sprites: Vec<Rect2D>,
    pub time_per_frame_ms: Scalar,
}

pub struct ParticleSystemJSONAutoGen {
    pub name: String,
    pub bounds: Rect2D,
    pub stride: u32,
}

/// One kind of particle. Its `id` is the kind's number.
pub struct ParticleSystemJSONEntry {
    pub name: String,
    pub id: u32,
    pub image_path: String,
    pub animations: Vec<ParticleSystemJSONAnimation>,
}

pub struct ParticleSystemJSON {
    pub particles: Vec<ParticleSystemJSONEntry>,
}

impl ParticleSystemJSONAnimation {
    /// The animation has no more frames than a table entry holds.
    pub open spec fn fits(&self) -> bool {
        self.sprites.len() <= MAX_PARTICLE_ANIMATIONS
    }
}

impl ParticleSystemJSONEntry {
    /// A kind without animations fits. One with animations fits when its
    /// number is one of the table and each animation fits.
    pub open spec fn fits(&self) -> bool {
        self.animations.len() > 0 ==> {
            &&& self.id < MAX_PARTICLE_ANIMATIONS
            &&& forall|k: int|
                0 <= k < self.animations.len() ==> (#[trigger] self.animations[k]).fits()
        }
    }

    /// Decides `fits`.
    pub fn check_fits(&self) -> (ok: bool)
        ensures
            ok == self.fits(),
    {
        if self.animations.len() == 0 {
            return true;
        }
        if self.id as usize >= MAX_PARTICLE_ANIMATIONS {
            return false;
        }
        let mut k: usize = 0;
        while k < self.animations.len()
            invariant
                k <= self.animations.len(),
                forall|j: int| 0 <= j < k ==> (#[trigger] self.animations[j]).fits(),
            decreases self.animations.len() - k,
        {
            if self.animations[k].sprites.len() > MAX_PARTICLE_ANIMATIONS {
                return false;
            }
            k = k + 1;
        }
        true
    }
}

impl ParticleSystemJSON {
    /// Every kind fits: the animation table can be built from this
    /// configuration.
    pub open spec fn fits(&self) -> bool {
        forall|k: int| 0 <= k < self.particles.len() ==> (#[trigger] self.particles[k]).fits()
    }

    /// Decides `fits`.
    pub fn check_fits(&self) -> (ok: bool)
        ensures
            ok == self.fits(),
    {
        let mut k: usize = 0;
        while k < self.particles.len()
            invariant
                k <= self.particles.len(),
                forall|j: int| 0 <= j < k ==> (#[trigger] self.particles[j]).fits(),
            decreases self.particles.len() - k,
        {
            if !self.particles[k].check_fits() {
                return false;
            }
            k = k + 1;
        }
        true
    }

    /// The path of the atlas image: that of the first kind. All kinds share
    /// one atlas.
    pub fn atlas_path(&self) -> (path: Option<&String>)
        ensures
            self.particles.len() == 0 ==> path is None,
            self.particles.len() > 0 ==> path == Some(&self.particles[0].image_path),
    {
        if self.particles.len() == 0 {
            None
        } else {
            Some(&self.particles[0].image_path)
        }
    }
}

} // verus!
