//! The order in which the renderer gives its device resources back.
//!
//! Nothing is destroyed while the device still works with it, what is built
//! on a resource goes before the resource, and a buffer goes after the
//! structure that lives in it.

use vstd::prelude::*;

verus! {

/// The resources that a renderer holds and that it may hold or not.
#[derive(Clone, Copy, Debug, PartialEq, Eq)]
pub struct Resources {
    pub sbt_buffer: bool,
    /// The number of bottom-level structures, each with its buffer.
    pub bottom_levels: usize,
    pub top_level_buffer: bool,
    pub storage_allocation: bool,
    pub vertex_normal_buffer: bool,
    pub light_buffer: bool,
    pub offset_buffer: bool,
    pub brdf_param_buffer: bool,
}

/// One step of the teardown.
#[derive(Clone, Copy, Debug, PartialEq, Eq, Structural)]
pub enum Teardown {
    /// Wait for the device to idle.
    WaitIdle,
    CommandPool,
    DescriptorPool,
    SbtBuffer,
    Pipeline,
    DescriptorSetLayout,
    PipelineLayout,
    /// The bottom-level structure with this index.
    BottomLevelStructure(usize),
    /// The buffer of the bottom-level structure with this index.
    BottomLevelBuffer(usize),
    TopLevelStructure,
    TopLevelBuffer,
    StorageImageView,
    StorageImage,
    StorageAllocation,
    VertexNormalBuffer,
    LightBuffer,
    OffsetBuffer,
    BrdfParamBuffer,
}

/// `step` where the resource is `held`, else nothing.
pub open spec fn held_step(held: bool, step: Teardown) -> Seq<Teardown> {
    if held {
        seq![step]
    } else {
        Seq::empty()
    }
}

/// The steps of the teardown of `resources`, in their order.
pub open spec fn teardown_steps(resources: Resources) -> Seq<Teardown> {
    seq![Teardown::WaitIdle, Teardown::CommandPool, Teardown::DescriptorPool] + held_step(
        resources.sbt_buffer,
        Teardown::SbtBuffer,
    ) + seq![Teardown::Pipeline, Teardown::DescriptorSetLayout, Teardown::PipelineLayout]
        + Seq::new(resources.bottom_levels as nat, |i: int| Teardown::BottomLevelStructure(i as usize))
        + Seq::new(resources.bottom_levels as nat, |i: int| Teardown::BottomLevelBuffer(i as usize))
        + seq![Teardown::TopLevelStructure] + held_step(
        resources.top_level_buffer,
        Teardown::TopLevelBuffer,
    ) + seq![Teardown::StorageImageView, Teardown::StorageImage] + held_step(
        resources.storage_allocation,
        Teardown::StorageAllocation,
    ) + held_step(resources.vertex_normal_buffer, Teardown::VertexNormalBuffer) + held_step(
        resources.light_buffer,
        Teardown::LightBuffer,
    ) + held_step(resources.offset_buffer, Teardown::OffsetBuffer) + held_step(
        resources.brdf_param_buffer,
        Teardown::BrdfParamBuffer,
    )
}

/// Appends `step` where the resource is `held`.
fn push_held(steps: &mut Vec<Teardown>, held: bool, step: Teardown)
    ensures
        final(steps)@ == old(steps)@ + held_step(held, step),
{
    if held {
        steps.push(step);
        assert(steps@ =~= old(steps)@ + seq![step]);
    } else {
        assert(steps@ =~= old(steps)@ + Seq::<Teardown>::empty());
    }
}

/// Appends three steps.
fn push_three(steps: &mut Vec<Teardown>, a: Teardown, b: Teardown, c: Teardown)
    ensures
        final(steps)@ == old(steps)@ + seq![a, b, c],
{
    steps.push(a);
    steps.push(b);
    steps.push(c);
    assert(steps@ =~= old(steps)@ + seq![a, b, c]);
}

/// The steps of the teardown of `resources`, in their order.
pub fn teardown_order(resources: &Resources) -> (steps: Vec<Teardown>)
    ensures
        steps@ == teardown_steps(*resources),
{
    let mut steps: Vec<Teardown> = Vec::new();
    push_three(&mut steps, Teardown::WaitIdle, Teardown::CommandPool, Teardown::DescriptorPool);
    assert(steps@ =~= seq![Teardown::WaitIdle, Teardown::CommandPool, Teardown::DescriptorPool]);
    push_held(&mut steps, resources.sbt_buffer, Teardown::SbtBuffer);
    push_three(
        &mut steps,
        Teardown::Pipeline,
        Teardown::DescriptorSetLayout,
        Teardown::PipelineLayout,
    );
    let n: usize = resources.bottom_levels;
    let ghost head = steps@;
    let mut i: usize = 0;
    while i < n
        invariant
            i <= n,
            steps@ == head + Seq::new(i as nat, |j: int| Teardown::BottomLevelStructure(j as usize)),
        decreases n - i,
    {
        steps.push(Teardown::BottomLevelStructure(i));
        assert(steps@ =~= head + Seq::new(
            (i + 1) as nat,
            |j: int| Teardown::BottomLevelStructure(j as usize),
        ));
        i += 1;
    }
    let ghost head = steps@;
    let mut i: usize = 0;
    while i < n
        invariant
            i <= n,
            steps@ == head + Seq::new(i as nat, |j: int| Teardown::BottomLevelBuffer(j as usize)),
        decreases n - i,
    {
        steps.push(Teardown::BottomLevelBuffer(i));
        assert(steps@ =~= head + Seq::new(
            (i + 1) as nat,
            |j: int| Teardown::BottomLevelBuffer(j as usize),
        ));
        i += 1;
    }
    let ghost head = steps@;
    steps.push(Teardown::TopLevelStructure);
    assert(steps@ =~= head + seq![Teardown::TopLevelStructure]);
    push_held(&mut steps, resources.top_level_buffer, Teardown::TopLevelBuffer);
    let ghost head = steps@;
    steps.push(Teardown::StorageImageView);
    steps.push(Teardown::StorageImage);
    assert(steps@ =~= head + seq![Teardown::StorageImageView, Teardown::StorageImage]);
    push_held(&mut steps, resources.storage_allocation, Teardown::StorageAllocation);
    push_held(&mut steps, resources.vertex_normal_buffer, Teardown::VertexNormalBuffer);
    push_held(&mut steps, resources.light_buffer, Teardown::LightBuffer);
    push_held(&mut steps, resources.offset_buffer, Teardown::OffsetBuffer);
    push_held(&mut steps, resources.brdf_param_buffer, Teardown::BrdfParamBuffer);
    steps
}

} // verus!
