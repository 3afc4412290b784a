//! The stages and shader groups of the ray-tracing pipeline.
//!
//! Stage 0 is the ray generation shader and stage 1 the miss shader; each is
//! a general group of its own. One closest-hit stage follows for each
//! material, in the order in which the scene declares them, each in a
//! triangle hit group of its own. The shader binding table relies on this
//! order.

use crate::render::push_constants::PUSH_DATA_SIZE;
use vstd::prelude::*;

verus! {

/// How deep the pipeline lets rays recurse. A bounce is a loop in the ray
/// generation shader, not a trace from a hit shader.
pub const MAX_RAY_RECURSION_DEPTH: u32 = 1;

/// The kind of a shader stage.
#[derive(Clone, Copy, Debug, PartialEq, Eq, Structural)]
pub enum StageKind {
    Raygen,
    Miss,
    ClosestHit,
}

/// A shader group. A shader that a group does not name is unused in it.
#[derive(Clone, Copy, Debug, PartialEq, Eq, Structural)]
pub enum ShaderGroup {
    /// A group of one general shader: the stage with this index.
    General { general_shader: u32 },
    /// A group that hits triangles: the closest-hit stage with this index.
    TrianglesHitGroup { closest_hit_shader: u32 },
}

/// Why a pipeline cannot be planned.
#[derive(Clone, Copy, Debug, PartialEq, Eq, Structural)]
pub enum PipelineError {
    /// More stages than 32 bits can count.
    TooManyShaders,
}

/// The kind of the stage with index `i`.
pub open spec fn stage_at(i: int) -> StageKind {
    if i == 0 {
        StageKind::Raygen
    } else if i == 1 {
        StageKind::Miss
    } else {
        StageKind::ClosestHit
    }
}

/// The group with index `i`, which holds the stage with index `i`.
pub open spec fn group_at(i: int) -> ShaderGroup {
    if i < 2 {
        ShaderGroup::General { general_shader: i as u32 }
    } else {
        ShaderGroup::TrianglesHitGroup { closest_hit_shader: i as u32 }
    }
}

/// The stages and groups of a pipeline.
#[derive(Clone, Debug, PartialEq, Eq)]
pub struct PipelinePlan {
    /// The kind of each stage; every stage enters at `main`.
    pub stages: Vec<StageKind>,
    /// The groups, one for each stage.
    pub groups: Vec<ShaderGroup>,
    pub max_ray_recursion_depth: u32,
    /// Bytes of push constants, which the ray generation shader reads.
    pub push_constant_size: u32,
}

/// The stages and groups of the pipeline of a scene with `hit_shaders`
/// materials.
pub fn plan_pipeline(hit_shaders: usize) -> (plan: Result<PipelinePlan, PipelineError>)
    ensures
        hit_shaders + 2 <= u32::MAX <==> plan.is_ok(),
        plan matches Ok(p) ==> {
            &&& p.stages@ == Seq::new((hit_shaders + 2) as nat, |i: int| stage_at(i))
            &&& p.groups@ == Seq::new((hit_shaders + 2) as nat, |i: int| group_at(i))
            &&& p.max_ray_recursion_depth == MAX_RAY_RECURSION_DEPTH
            &&& p.push_constant_size == PUSH_DATA_SIZE
        },
{
    if hit_shaders > (u32::MAX - 2) as usize {
        return Err(PipelineError::TooManyShaders);
    }
    let count: u32 = hit_shaders as u32 + 2;
    let mut stages: Vec<StageKind> = Vec::new();
    let mut groups: Vec<ShaderGroup> = Vec::new();
    let mut i: u32 = 0;
    while i < count
        invariant
            i <= count,
            stages@ == Seq::new(i as nat, |j: int| stage_at(j)),
            groups@ == Seq::new(i as nat, |j: int| group_at(j)),
        decreases count - i,
    {
        if i == 0 {
            stages.push(StageKind::Raygen);
        } else if i == 1 {
            stages.push(StageKind::Miss);
        } else {
            stages.push(StageKind::ClosestHit);
        }
        if i < 2 {
            groups.push(ShaderGroup::General { general_shader: i });
        } else {
            groups.push(ShaderGroup::TrianglesHitGroup { closest_hit_shader: i });
        }
        assert(stages@ =~= Seq::new((i + 1) as nat, |j: int| stage_at(j)));
        assert(groups@ =~= Seq::new((i + 1) as nat, |j: int| group_at(j)));
        i += 1;
    }
    Ok(
        PipelinePlan {
            stages,
            groups,
            max_ray_recursion_depth: MAX_RAY_RECURSION_DEPTH,
            push_constant_size: PUSH_DATA_SIZE as u32,
        },
    )
}

} // verus!
