//! The resources of one swapchain generation and the fixed order in which
//! they are created and destroyed: teardown is creation reversed.
use vstd::prelude::*;

verus! {

/// One group of resources of a swapchain generation.
#[derive(Clone, Copy, Debug, PartialEq, Eq, Structural)]
pub enum GenerationPart {
    Swapchain,
    ImageViews,
    RenderPass,
    PipelineLayout,
    Pipeline,
    DepthImage,
    DepthMemory,
    DepthImageView,
    Framebuffers,
    UniformBuffers,
    UniformMemory,
    DescriptorPool,
    CommandBuffers,
}

/// The order in which a generation's resources are created: each only after
/// those it refers to.
pub open spec fn creation_order_spec() -> Seq<GenerationPart> {
    seq![
        GenerationPart::Swapchain,
        GenerationPart::ImageViews,
        GenerationPart::RenderPass,
        GenerationPart::PipelineLayout,
        GenerationPart::Pipeline,
        GenerationPart::DepthImage,
        GenerationPart::DepthMemory,
        GenerationPart::DepthImageView,
        GenerationPart::Framebuffers,
        GenerationPart::UniformBuffers,
        GenerationPart::UniformMemory,
        GenerationPart::DescriptorPool,
        GenerationPart::CommandBuffers,
    ]
}

/// The creation order of a generation's resources.
pub fn creation_order() -> (r: Vec<GenerationPart>)
    ensures
        r@ == creation_order_spec(),
{
    let r = vec![
        GenerationPart::Swapchain,
        GenerationPart::ImageViews,
        GenerationPart::RenderPass,
        GenerationPart::PipelineLayout,
        GenerationPart::Pipeline,
        GenerationPart::DepthImage,
        GenerationPart::DepthMemory,
        GenerationPart::DepthImageView,
        GenerationPart::Framebuffers,
        GenerationPart::UniformBuffers,
        GenerationPart::UniformMemory,
        GenerationPart::DescriptorPool,
        GenerationPart::CommandBuffers,
    ];
    assert(r@ =~= creation_order_spec());
    r
}

/// The order in which a generation's resources are destroyed: the creation
/// order reversed, so nothing is destroyed before what refers to it.
pub fn teardown_order() -> (r: Vec<GenerationPart>)
    ensures
        r@ == creation_order_spec().reverse(),
{
    let created = creation_order();
    let mut out: Vec<GenerationPart> = Vec::new();
    let mut i: usize = created.len();
    while i > 0
        invariant
            i <= created@.len(),
            created@ == creation_order_spec(),
            out@ == created@.subrange(i as int, created@.len() as int).reverse(),
        decreases i,
    {
        i -= 1;
        out.push(created[i]);
        assert(out@ =~= created@.subrange(i as int, created@.len() as int).reverse());
    }
    assert(created@.subrange(0, created@.len() as int) =~= created@);
    out
}

} // verus!
