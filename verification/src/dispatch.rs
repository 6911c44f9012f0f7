//! Sizing of the compute dispatch that advances the particles.

use vstd::prelude::*;

verus! {

/// Invocations in one workgroup of the particle compute shader.
pub const WORKGROUP_SIZE: u32 = 64;

/// Workgroups that cover `particle_count` particles: the count divided by
/// the workgroup size, rounded up.
pub fn workgroup_count(particle_count: u32) -> (r: u32)
    requires
        particle_count <= u32::MAX - 63,
    ensures
        r == (particle_count + 63) / 64,
        r * 64 >= particle_count,
        r * 64 < particle_count + 64,
{
    (particle_count + (WORKGROUP_SIZE - 1)) / WORKGROUP_SIZE
}

} // verus!
