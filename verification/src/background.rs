//! The background: a cubemap, and the light that it casts.

use crate::gpu::{ColorTarget, CompareFunction, DepthState, FullscreenTriangle};
use crate::paths::{join, joined};
use crate::screen::Screen;
use vstd::prelude::*;

verus! {

/// A direction or a colour: three single-precision numbers, as their bit patterns.
#[derive(Clone, Copy, Debug, PartialEq, Eq, Structural)]
pub struct Vector3Bits {
    pub x: u32,
    pub y: u32,
    pub z: u32,
}

/// The bit pattern of the single-precision number zero.
pub const ZERO_BITS: u32 = 0;

/// Data describing a background.
#[derive(Clone, Copy, Debug)]
pub struct BackgroundConfig {
    pub dir_light_direction: Vector3Bits,
    pub dir_light_radiance: Vector3Bits,
    /// Coefficients of the spherical harmonics of the indirect light.
    pub indirect_lighting_sh: [Vector3Bits; 9],
}

/// A vector as shaders read it: it takes the room of four numbers.
#[derive(Clone, Copy, Debug, PartialEq, Eq, Structural)]
pub struct PaddedVector3Bits {
    pub vector: Vector3Bits,
    pub padding: u32,
}

/// A vector, padded with zero.
pub open spec fn spec_padded(vector: Vector3Bits) -> PaddedVector3Bits {
    PaddedVector3Bits { vector, padding: ZERO_BITS }
}

fn padded(vector: Vector3Bits) -> (result: PaddedVector3Bits)
    ensures
        result == spec_padded(vector),
{
    PaddedVector3Bits { vector, padding: ZERO_BITS }
}

/// The light, as shaders read it.
#[derive(Clone, Copy, Debug)]
pub struct LightingAndBackgroundUniformBufferContent {
    pub dir_light_direction: PaddedVector3Bits,
    pub dir_light_radiance: PaddedVector3Bits,
    pub indirect_lighting_sh: [PaddedVector3Bits; 9],
}

/// How the background is drawn.
#[derive(Clone, Copy, Debug)]
pub struct BackgroundPipeline {
    pub label: &'static str,
    pub vertex_shader: &'static str,
    pub fragment_shader: &'static str,
    pub target: ColorTarget,
    pub depth: DepthState,
}

/// Whether `lighting` is the light that a configuration describes: each vector of it, padded.
pub open spec fn is_lighting_of(
    lighting: LightingAndBackgroundUniformBufferContent,
    config: BackgroundConfig,
) -> bool {
    &&& lighting.dir_light_direction == spec_padded(config.dir_light_direction)
    &&& lighting.dir_light_radiance == spec_padded(config.dir_light_radiance)
    &&& forall|i: int|
        0 <= i < 9 ==> #[trigger] lighting.indirect_lighting_sh@[i] == spec_padded(
            config.indirect_lighting_sh@[i],
        )
}

/// The pipeline of every background. It is drawn where nothing lies before it, and leaves the
/// depth as it is.
pub open spec fn background_pipeline() -> BackgroundPipeline {
    BackgroundPipeline {
        label: "Cubemap Renderer",
        vertex_shader: "screentri.vert",
        fragment_shader: "background_render.frag",
        target: ColorTarget::HdrBackbuffer,
        depth: DepthState {
            format: Screen::FORMAT_DEPTH,
            write_enabled: false,
            compare: CompareFunction::LessEqual,
        },
    }
}

fn describe_pipeline() -> (pipeline: BackgroundPipeline)
    ensures
        pipeline == background_pipeline(),
{
    BackgroundPipeline {
        label: "Cubemap Renderer",
        vertex_shader: "screentri.vert",
        fragment_shader: "background_render.frag",
        target: ColorTarget::HdrBackbuffer,
        depth: DepthState {
            format: Screen::FORMAT_DEPTH,
            write_enabled: false,
            compare: CompareFunction::LessEqual,
        },
    }
}

/// A background, ready to be brought to the GPU.
#[derive(Clone, Copy, Debug)]
pub struct Background {
    pub lighting: LightingAndBackgroundUniformBufferContent,
    pub pipeline: BackgroundPipeline,
}

/// The file that describes the background in the directory `path`.
pub fn config_filename(path: &str) -> (filename: String)
    ensures
        filename@ == joined(path@, "config.json"@),
{
    join(path, "config.json")
}

impl Background {
    /// The background that a configuration describes.
    pub fn new(config: &BackgroundConfig) -> (background: Background)
        ensures
            is_lighting_of(background.lighting, *config),
            background.pipeline == background_pipeline(),
    {
        let sh = &config.indirect_lighting_sh;
        Background {
            lighting: LightingAndBackgroundUniformBufferContent {
                dir_light_direction: padded(config.dir_light_direction),
                dir_light_radiance: padded(config.dir_light_radiance),
                indirect_lighting_sh: [
                    padded(sh[0]),
                    padded(sh[1]),
                    padded(sh[2]),
                    padded(sh[3]),
                    padded(sh[4]),
                    padded(sh[5]),
                    padded(sh[6]),
                    padded(sh[7]),
                    padded(sh[8]),
                ],
            },
            pipeline: describe_pipeline(),
        }
    }

    /// The draw call of the background: its resources come behind those that all shaders share.
    pub fn draw(&self) -> (call: FullscreenTriangle)
        ensures
            call == (FullscreenTriangle { bind_group: 1, vertices: 3, instances: 1 }),
    {
        FullscreenTriangle { bind_group: 1, vertices: 3, instances: 1 }
    }
}

/// A step of the loading of a background.
#[derive(Clone, Copy, Debug)]
pub enum BackgroundAction {
    /// Open, read and parse the file that describes the background.
    ReadConfig,
    /// Bring the light to the GPU.
    CreateUniformBuffer(LightingAndBackgroundUniformBufferContent),
    /// Load the cubemap, from its cache or from its faces.
    LoadCubemap,
    /// Bind the light and the cubemap.
    CreateBindGroup,
    /// Add the pipeline to those of the application.
    CreatePipeline(BackgroundPipeline),
}

/// What came of a step of the loading.
#[derive(Clone, Copy, Debug)]
pub enum BackgroundOutcome {
    Config(BackgroundConfig),
    Done,
    Failed,
}

/// How the loading goes on.
#[derive(Clone, Copy, Debug)]
pub enum BackgroundStep {
    Perform(BackgroundAction),
    /// The background is not loaded; the failure of the last step says why.
    Abort,
    /// The background is loaded.
    Ready,
}

impl BackgroundAction {
    /// Whether an outcome is of a kind that the step has. Only the files can fail.
    pub open spec fn yields(self, outcome: BackgroundOutcome) -> bool {
        match self {
            BackgroundAction::ReadConfig => outcome is Config || outcome is Failed,
            BackgroundAction::LoadCubemap => outcome is Done || outcome is Failed,
            _ => outcome is Done,
        }
    }

    /// Whether `step` is how the loading goes on after this one and its outcome. The first failure
    /// ends it.
    pub open spec fn is_followed_by(self, outcome: BackgroundOutcome, step: BackgroundStep) -> bool {
        match self {
            _ if outcome is Failed => step is Abort,
            BackgroundAction::ReadConfig => outcome matches BackgroundOutcome::Config(config)
                && step matches BackgroundStep::Perform(
                BackgroundAction::CreateUniformBuffer(lighting),
            ) && is_lighting_of(lighting, config),
            BackgroundAction::CreateUniformBuffer(_) => step == BackgroundStep::Perform(
                BackgroundAction::LoadCubemap,
            ),
            BackgroundAction::LoadCubemap => step == BackgroundStep::Perform(
                BackgroundAction::CreateBindGroup,
            ),
            BackgroundAction::CreateBindGroup => step == BackgroundStep::Perform(
                BackgroundAction::CreatePipeline(background_pipeline()),
            ),
            BackgroundAction::CreatePipeline(_) => step is Ready,
        }
    }

    /// The place of the step in the loading.
    pub open spec fn place(self) -> int {
        match self {
            BackgroundAction::ReadConfig => 0,
            BackgroundAction::CreateUniformBuffer(_) => 1,
            BackgroundAction::LoadCubemap => 2,
            BackgroundAction::CreateBindGroup => 3,
            BackgroundAction::CreatePipeline(_) => 4,
        }
    }
}

/// Decides how the loading of a background goes on after a step. It begins with `ReadConfig`.
pub fn next_step(performed: BackgroundAction, outcome: BackgroundOutcome) -> (step: BackgroundStep)
    requires
        performed.yields(outcome),
    ensures
        performed.is_followed_by(outcome, step),
{
    match (performed, outcome) {
        (_, BackgroundOutcome::Failed) => BackgroundStep::Abort,
        (_, BackgroundOutcome::Config(config)) => BackgroundStep::Perform(
            BackgroundAction::CreateUniformBuffer(Background::new(&config).lighting),
        ),
        (BackgroundAction::CreateUniformBuffer(_), _) => BackgroundStep::Perform(
            BackgroundAction::LoadCubemap,
        ),
        (BackgroundAction::LoadCubemap, _) => BackgroundStep::Perform(
            BackgroundAction::CreateBindGroup,
        ),
        (BackgroundAction::CreateBindGroup, _) => BackgroundStep::Perform(
            BackgroundAction::CreatePipeline(describe_pipeline()),
        ),
        _ => BackgroundStep::Ready,
    }
}

/// A background is loaded in a fixed order: the description, the light, the cubemap, the bindings,
/// the pipeline. Each step is performed only if none before it failed; so the cubemap and its
/// cache are not touched if the description cannot be read, and no pipeline is added unless both
/// files were loaded.
pub proof fn law_background_loads_in_order(
    steps: Seq<BackgroundAction>,
    outcomes: Seq<BackgroundOutcome>,
    i: int,
)
    requires
        steps.len() > 0,
        steps[0] == BackgroundAction::ReadConfig,
        outcomes.len() == steps.len(),
        forall|k: int|
            0 <= k < steps.len() - 1 ==> (#[trigger] steps[k]).yields(outcomes[k])
                && steps[k].is_followed_by(outcomes[k], BackgroundStep::Perform(steps[k + 1])),
        0 <= i < steps.len(),
    ensures
        steps[i].place() == i,
        forall|k: int| 0 <= k < i ==> !((#[trigger] outcomes[k]) is Failed),
    decreases i,
{
    if i > 0 {
        law_background_loads_in_order(steps, outcomes, i - 1);
        assert(steps[i - 1].is_followed_by(outcomes[i - 1], BackgroundStep::Perform(steps[i])));
    }
}

} // verus!
