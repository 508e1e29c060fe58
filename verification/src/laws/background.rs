//! The background: its light, its pipeline and the order of its loading.

use crate::background::{
    next_step, Background, BackgroundAction, BackgroundConfig, BackgroundOutcome, BackgroundStep,
    PaddedVector3Bits, Vector3Bits,
};
use crate::gpu::{ColorTarget, CompareFunction, FullscreenTriangle, TextureFormat};
use vstd::prelude::*;

verus! {

/// Whether a padded vector holds a vector, bit by bit, and zero behind it.
pub open spec fn holds(padded: PaddedVector3Bits, vector: Vector3Bits) -> bool {
    &&& padded.vector.x == vector.x
    &&& padded.vector.y == vector.y
    &&& padded.vector.z == vector.z
    &&& padded.padding == 0
}

/// The light of a background is the light that its configuration describes: the direction, the
/// radiance, and each of the nine coefficients at its own place.
pub proof fn law_light_is_the_configured_one(
    config: &BackgroundConfig,
    background: Background,
    i: int,
)
    requires
        call_ensures(Background::new, (config,), background),
        0 <= i < 9,
    ensures
        holds(background.lighting.dir_light_direction, config.dir_light_direction),
        holds(background.lighting.dir_light_radiance, config.dir_light_radiance),
        holds(
            background.lighting.indirect_lighting_sh@[i],
            config.indirect_lighting_sh@[i],
        ),
{
    assert(background.lighting.indirect_lighting_sh@[i] == crate::background::spec_padded(
        config.indirect_lighting_sh@[i],
    ));
}

/// A background covers the backbuffer for high dynamic range with one triangle. It is tested
/// against the depth texture, where it passes at the same depth too, and does not write to it.
pub proof fn law_background_leaves_the_depth(
    config: &BackgroundConfig,
    background: Background,
    call: FullscreenTriangle,
)
    requires
        call_ensures(Background::new, (config,), background),
        call_ensures(Background::draw, (&background,), call),
    ensures
        background.pipeline.target == ColorTarget::HdrBackbuffer,
        background.pipeline.depth.format == TextureFormat::Depth32Float,
        background.pipeline.depth.compare == CompareFunction::LessEqual,
        !background.pipeline.depth.write_enabled,
        background.pipeline.label@ == "Cubemap Renderer"@,
        background.pipeline.vertex_shader@ == "screentri.vert"@,
        background.pipeline.fragment_shader@ == "background_render.frag"@,
        call.bind_group == 1,
        call.vertices == 3,
        call.instances == 1,
{
}

/// The place of a step in the loading.
pub open spec fn place(action: BackgroundAction) -> int {
    match action {
        BackgroundAction::ReadConfig => 0,
        BackgroundAction::CreateUniformBuffer(_) => 1,
        BackgroundAction::LoadCubemap => 2,
        BackgroundAction::CreateBindGroup => 3,
        BackgroundAction::CreatePipeline(_) => 4,
    }
}

/// The loading goes from place to place until a step fails. The light that it brings to the GPU is
/// that of the configuration that was read, and the pipeline that it adds is that of every
/// background.
pub proof fn law_loading_goes_from_place_to_place(
    performed: BackgroundAction,
    outcome: BackgroundOutcome,
    step: BackgroundStep,
    config: &BackgroundConfig,
    background: Background,
    i: int,
)
    requires
        performed.yields(outcome),
        call_ensures(next_step, (performed, outcome), step),
        call_ensures(Background::new, (config,), background),
        0 <= i < 9,
    ensures
        step is Abort <==> outcome is Failed,
        step is Ready <==> place(performed) == 4,
        step matches BackgroundStep::Perform(next) ==> place(next) == place(performed) + 1,
        step matches BackgroundStep::Perform(BackgroundAction::CreatePipeline(pipeline))
            ==> pipeline == background.pipeline,
        step matches BackgroundStep::Perform(BackgroundAction::CreateUniformBuffer(lighting))
            ==> outcome matches BackgroundOutcome::Config(read) && {
            &&& holds(lighting.dir_light_direction, read.dir_light_direction)
            &&& holds(lighting.dir_light_radiance, read.dir_light_radiance)
            &&& holds(lighting.indirect_lighting_sh@[i], read.indirect_lighting_sh@[i])
        },
{
    if let BackgroundStep::Perform(BackgroundAction::CreateUniformBuffer(lighting)) = step {
        let read = outcome->Config_0;
        assert(lighting.indirect_lighting_sh@[i] == crate::background::spec_padded(
            read.indirect_lighting_sh@[i],
        ));
    }
}

} // verus!
