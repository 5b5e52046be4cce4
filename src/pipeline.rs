use vstd::prelude::*;
use crate::surface::CanvasError;

verus! {

/// What a binding slot holds, as seen by the fragment stage.
#[derive(Clone, Copy, Debug, PartialEq, Eq, Structural)]
pub enum BindingSlot {
    /// A 2D colour texture read by sampling, without filtering.
    SampledTexture,
    /// A filtering sampler.
    Sampler,
}

/// The two-slot layout each surface's binding is built against.
pub open spec fn canvas_layout() -> Seq<BindingSlot> {
    seq![BindingSlot::SampledTexture, BindingSlot::Sampler]
}

/// The layout of every surface binding: slot 0 the surface's texture,
/// slot 1 the shared sampler.
pub fn surface_binding_layout() -> (r: Vec<BindingSlot>)
    ensures
        r@ == canvas_layout(),
{
    let r = vec![BindingSlot::SampledTexture, BindingSlot::Sampler];
    assert(r@ =~= canvas_layout());
    r
}

/// Accepts a pipeline only where its binding layout is, slot for slot, the
/// layout the surfaces were bound with.
pub fn check_pipeline_layout(surfaces: &Vec<BindingSlot>, pipeline: &Vec<BindingSlot>) -> (r: Result<
    (),
    CanvasError,
>)
    ensures
        r is Ok <==> surfaces@ == pipeline@,
        r is Err ==> r->Err_0 == CanvasError::PipelineLayoutMismatch,
{
    if surfaces.len() != pipeline.len() {
        return Err(CanvasError::PipelineLayoutMismatch);
    }
    let mut i: usize = 0;
    while i < surfaces.len()
        invariant
            surfaces@.len() == pipeline@.len(),
            i <= surfaces@.len(),
            forall|k: int| 0 <= k < i ==> surfaces@[k] == pipeline@[k],
        decreases surfaces@.len() - i,
    {
        if surfaces[i] != pipeline[i] {
            return Err(CanvasError::PipelineLayoutMismatch);
        }
        i = i + 1;
    }
    assert(surfaces@ =~= pipeline@);
    Ok(())
}

} // verus!
