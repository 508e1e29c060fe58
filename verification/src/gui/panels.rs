//! What the panels of the settings window show, from top to bottom.
//!
//! A panel is a list of widgets. Groups open and close in the list; texts and bounds that change
//! from frame to frame are named and filled in where the panel is drawn.

use crate::simulation::SimulationControllerStatus;
use vstd::prelude::*;

verus! {

/// The two pressure solvers.
#[derive(Clone, Copy, Debug, PartialEq, Eq, Structural)]
pub enum Solver {
    Velocity,
    Density,
}

/// The two sets of profiling data.
#[derive(Clone, Copy, Debug, PartialEq, Eq, Structural)]
pub enum Profile {
    Simulation,
    Rendering,
}

/// A text: fixed, or the current value of something.
#[derive(Clone, Copy, Debug)]
pub enum Text {
    Fixed(&'static str),
    FrameTimeAndFps,
    StepsInFrame,
    RecordingFps,
    RenderedTime,
    SimulatedTime,
    NewestError(Solver),
    NewestIterationCount(Solver),
    TotalSteps,
    LastFastForward,
    GridDimension,
    ParticleCount,
}

/// A bar chart. That of the residual errors reaches up to a multiple of the tolerated error, that
/// of the iterations up to the largest allowed count, that of the frame times up to the longest.
#[derive(Clone, Copy, Debug, PartialEq, Eq, Structural)]
pub enum Chart {
    FrameTimes,
    ResidualErrors { solver: Solver, tolerances: u32 },
    IterationCounts(Solver),
}

/// A setting that is on or off.
#[derive(Clone, Copy, Debug, PartialEq, Eq, Structural)]
pub enum Toggle {
    WaitForVblank,
    VoxelVisualization,
    MeshRendering,
    BoxLines,
}

/// A button.
#[derive(Clone, Copy, Debug, PartialEq, Eq, Structural)]
pub enum Button {
    Reset,
    PauseOrResume,
    FastForward,
    EndRecording,
    ResetAndRecord,
    WriteChrometrace(Profile),
}

/// A number that can be edited.
#[derive(Clone, Copy, Debug, PartialEq, Eq, Structural)]
pub enum Quantity {
    ErrorTolerance,
    MaxIterationCount,
    ErrorCheckFrequency,
    ParticleBinningFrequency,
    TargetTime,
    StepsPerSecond,
    TimeScale,
    FastForwardLength,
    VideoFps,
    ParticleRadiusFactor,
    VelocityScale,
}

/// The number `units` divided by ten to the power of `places`.
#[derive(Clone, Copy, Debug, PartialEq, Eq, Structural)]
pub struct Decimal {
    pub units: u32,
    pub places: u32,
}

/// A bound of a number: fixed, or the current value of something.
#[derive(Clone, Copy, Debug, PartialEq, Eq, Structural)]
pub enum Bound {
    Fixed(Decimal),
    /// The largest allowed iteration count of the solver.
    MaxIterationCount,
    /// The length of a single simulation step.
    StepLength,
}

/// Both bounds of a number, inclusive.
#[derive(Clone, Copy, Debug, PartialEq, Eq, Structural)]
pub struct Bounds {
    pub lower: Bound,
    pub upper: Bound,
}

/// A list to choose from.
#[derive(Clone, Copy, Debug, PartialEq, Eq, Structural)]
pub enum Combo {
    Scene,
    FluidRendering,
    VolumeVisualization,
}

/// Widgets that are laid out together.
#[derive(Clone, Copy, Debug)]
pub enum Group {
    Horizontal,
    Vertical,
    Grid(&'static str),
    Collapsing { title: &'static str, default_open: bool },
    Combo { combo: Combo, label: &'static str },
}

/// A widget, or a mark in the list of widgets.
#[derive(Clone, Copy, Debug)]
pub enum Widget {
    Heading(Text),
    Label(Text),
    Strong(Text),
    /// A label in red.
    Alert(Text),
    /// A chart of the given size; as wide as there is room where no width is given.
    BarChart { chart: Chart, width: Option<u32>, height: u32 },
    Checkbox { toggle: Toggle, label: &'static str },
    Button { button: Button, label: &'static str },
    Slider { quantity: Quantity, bounds: Bounds, logarithmic: bool, text: &'static str },
    /// A number to drag. Without a speed it moves as fast as such widgets do on their own.
    Drag { quantity: Quantity, speed: Option<Decimal>, limits: Option<Bounds> },
    /// One entry of a list to choose from, by its position.
    Choice { combo: Combo, index: usize },
    /// From here on sliders in the group are this wide.
    SliderWidth(u32),
    Separator,
    EndRow,
    Open(Group),
    Close,
    /// Both solvers get the configuration of the one for the density: here
    /// `SolverConfigs::shared` is applied to the two.
    ShareSolverConfig,
    /// A quantity below the bound is raised to it before it is shown.
    RaiseTo { quantity: Quantity, bound: Bound },
    /// The controls of the recording, as they are once the widgets above had their effect.
    RecordingControls,
    /// The rows of the profiler, with so many levels open at first.
    ProfilerRows { profile: Profile, levels_default_open: i32 },
}

/// A whole number.
pub open spec fn whole(units: u32) -> Decimal {
    Decimal { units, places: 0 }
}

/// Fixed bounds.
pub open spec fn between(lower: Decimal, upper: Decimal) -> Bounds {
    Bounds { lower: Bound::Fixed(lower), upper: Bound::Fixed(upper) }
}

/// A label with a fixed text.
pub open spec fn label(text: &'static str) -> Widget {
    Widget::Label(Text::Fixed(text))
}

fn fixed_label(text: &'static str) -> (widget: Widget)
    ensures
        widget == label(text),
{
    Widget::Label(Text::Fixed(text))
}

fn fixed_bounds(lower: Decimal, upper: Decimal) -> (bounds: Bounds)
    ensures
        bounds == between(lower, upper),
{
    Bounds { lower: Bound::Fixed(lower), upper: Bound::Fixed(upper) }
}

/// The panel of the timer: while a recording runs, its frame rate stands in place of the rendered
/// time.
pub open spec fn timer_panel(status: SimulationControllerStatus) -> Seq<Widget> {
    seq![
        Widget::Heading(Text::FrameTimeAndFps),
        Widget::BarChart { chart: Chart::FrameTimes, width: None, height: 40 },
        Widget::Checkbox { toggle: Toggle::WaitForVblank, label: "wait for vsync" },
        Widget::Separator,
        Widget::Open(Group::Horizontal),
        label("num simulation steps current frame:"),
        Widget::Strong(Text::StepsInFrame),
        Widget::Close,
        Widget::Open(Group::Grid("timers")),
    ] + (if status == SimulationControllerStatus::RecordingWithFixedFrameLength {
        seq![Widget::Alert(Text::RecordingFps)]
    } else {
        seq![label("rendered time:"), Widget::Strong(Text::RenderedTime)]
    }) + seq![
        Widget::EndRow,
        label("simulated time:"),
        Widget::Strong(Text::SimulatedTime),
        Widget::Close,
    ]
}

/// Lays out the panel of the timer.
pub fn setup_ui_timer(status: SimulationControllerStatus) -> (widgets: Vec<Widget>)
    ensures
        widgets@ == timer_panel(status),
{
    let mut widgets = vec![
        Widget::Heading(Text::FrameTimeAndFps),
        Widget::BarChart { chart: Chart::FrameTimes, width: None, height: 40 },
        Widget::Checkbox { toggle: Toggle::WaitForVblank, label: "wait for vsync" },
        Widget::Separator,
        Widget::Open(Group::Horizontal),
        fixed_label("num simulation steps current frame:"),
        Widget::Strong(Text::StepsInFrame),
        Widget::Close,
        Widget::Open(Group::Grid("timers")),
    ];
    if status == SimulationControllerStatus::RecordingWithFixedFrameLength {
        widgets.push(Widget::Alert(Text::RecordingFps));
    } else {
        widgets.push(fixed_label("rendered time:"));
        widgets.push(Widget::Strong(Text::RenderedTime));
    }
    widgets.push(Widget::EndRow);
    widgets.push(fixed_label("simulated time:"));
    widgets.push(Widget::Strong(Text::SimulatedTime));
    widgets.push(Widget::Close);
    assert(widgets@ =~= timer_panel(status));
    widgets
}

/// The statistics of a solver: its residual errors and its iteration counts.
pub open spec fn solver_stats_panel(solver: Solver) -> Seq<Widget> {
    seq![
        Widget::Open(Group::Horizontal),
        Widget::BarChart {
            chart: Chart::ResidualErrors { solver, tolerances: 3 },
            width: Some(240),
            height: 40,
        },
        Widget::Open(Group::Vertical),
        label("max residual error"),
        Widget::Label(Text::NewestError(solver)),
        Widget::Close,
        Widget::Close,
        Widget::Open(Group::Horizontal),
        Widget::BarChart { chart: Chart::IterationCounts(solver), width: Some(240), height: 40 },
        Widget::Open(Group::Vertical),
        label("# solver iterations"),
        Widget::Label(Text::NewestIterationCount(solver)),
        Widget::Close,
        Widget::Close,
    ]
}

/// Lays out the statistics of a solver.
pub fn setup_ui_solver_stats(solver: Solver) -> (widgets: Vec<Widget>)
    ensures
        widgets@ == solver_stats_panel(solver),
{
    let widgets = vec![
        Widget::Open(Group::Horizontal),
        Widget::BarChart {
            chart: Chart::ResidualErrors { solver, tolerances: 3 },
            width: Some(240),
            height: 40,
        },
        Widget::Open(Group::Vertical),
        fixed_label("max residual error"),
        Widget::Label(Text::NewestError(solver)),
        Widget::Close,
        Widget::Close,
        Widget::Open(Group::Horizontal),
        Widget::BarChart { chart: Chart::IterationCounts(solver), width: Some(240), height: 40 },
        Widget::Open(Group::Vertical),
        fixed_label("# solver iterations"),
        Widget::Label(Text::NewestIterationCount(solver)),
        Widget::Close,
        Widget::Close,
    ];
    assert(widgets@ =~= solver_stats_panel(solver));
    widgets
}

/// The configuration of the solvers. Errors are checked at least once in a full run.
pub open spec fn solver_config_panel() -> Seq<Widget> {
    seq![
        Widget::Open(Group::Grid("solver config")),
        label("error tolerance"),
        Widget::Slider {
            quantity: Quantity::ErrorTolerance,
            bounds: between(Decimal { units: 1, places: 4 }, whole(1)),
            logarithmic: false,
            text: "",
        },
        Widget::EndRow,
        label("max iteration count"),
        Widget::Slider {
            quantity: Quantity::MaxIterationCount,
            bounds: between(whole(2), whole(128)),
            logarithmic: false,
            text: "",
        },
        Widget::EndRow,
        label("error check frequency count"),
        Widget::Slider {
            quantity: Quantity::ErrorCheckFrequency,
            bounds: Bounds { lower: Bound::Fixed(whole(1)), upper: Bound::MaxIterationCount },
            logarithmic: false,
            text: "",
        },
        Widget::EndRow,
        Widget::Close,
    ]
}

/// Lays out the configuration of the solvers.
pub fn setup_ui_solver_config() -> (widgets: Vec<Widget>)
    ensures
        widgets@ == solver_config_panel(),
{
    let widgets = vec![
        Widget::Open(Group::Grid("solver config")),
        fixed_label("error tolerance"),
        Widget::Slider {
            quantity: Quantity::ErrorTolerance,
            bounds: fixed_bounds(Decimal { units: 1, places: 4 }, Decimal { units: 1, places: 0 }),
            logarithmic: false,
            text: "",
        },
        Widget::EndRow,
        fixed_label("max iteration count"),
        Widget::Slider {
            quantity: Quantity::MaxIterationCount,
            bounds: fixed_bounds(
                Decimal { units: 2, places: 0 },
                Decimal { units: 128, places: 0 },
            ),
            logarithmic: false,
            text: "",
        },
        Widget::EndRow,
        fixed_label("error check frequency count"),
        Widget::Slider {
            quantity: Quantity::ErrorCheckFrequency,
            bounds: Bounds {
                lower: Bound::Fixed(Decimal { units: 1, places: 0 }),
                upper: Bound::MaxIterationCount,
            },
            logarithmic: false,
            text: "",
        },
        Widget::EndRow,
        Widget::Close,
    ];
    assert(widgets@ =~= solver_config_panel());
    widgets
}

/// The panel of both solvers, with one configuration for the two.
pub open spec fn solver_panel() -> Seq<Widget> {
    seq![label("pressure solver, primary (via velocity)")] + solver_stats_panel(Solver::Velocity)
        + seq![Widget::Separator, label("pressure solver, secondary (via density)")]
        + solver_stats_panel(Solver::Density) + seq![Widget::Separator] + solver_config_panel()
        + seq![Widget::ShareSolverConfig]
}

/// Lays out the panel of both solvers.
pub fn setup_ui_solver() -> (widgets: Vec<Widget>)
    ensures
        widgets@ == solver_panel(),
{
    let mut widgets = vec![fixed_label("pressure solver, primary (via velocity)")];
    widgets.append(&mut setup_ui_solver_stats(Solver::Velocity));
    widgets.push(Widget::Separator);
    widgets.push(fixed_label("pressure solver, secondary (via density)"));
    widgets.append(&mut setup_ui_solver_stats(Solver::Density));
    widgets.push(Widget::Separator);
    widgets.append(&mut setup_ui_solver_config());
    widgets.push(Widget::ShareSolverConfig);
    assert(widgets@ =~= solver_panel());
    widgets
}

/// What the button that pauses and resumes says.
pub open spec fn pause_label(status: SimulationControllerStatus) -> &'static str {
    if status == SimulationControllerStatus::Paused {
        "Continue  (Space)"
    } else {
        "Pause  (Space)"
    }
}

/// The controls of the simulation. A jump is at least one simulation step long.
pub open spec fn simulation_control_panel(status: SimulationControllerStatus) -> Seq<Widget> {
    seq![
        Widget::Open(Group::Horizontal),
        Widget::Button { button: Button::Reset, label: "Reset" },
        Widget::Button { button: Button::PauseOrResume, label: pause_label(status) },
        Widget::Close,
        Widget::Open(Group::Horizontal),
        label("total num simulation steps:"),
        Widget::Strong(Text::TotalSteps),
        Widget::Close,
        Widget::Separator,
        Widget::Open(Group::Grid("simulation controls")),
        label("target simulation time (s)"),
        Widget::Drag {
            quantity: Quantity::TargetTime,
            speed: Some(Decimal { units: 1, places: 1 }),
            limits: None,
        },
        Widget::EndRow,
        label("simulation steps per second"),
        Widget::Drag { quantity: Quantity::StepsPerSecond, speed: Some(whole(10)), limits: None },
        Widget::EndRow,
        label("time scale"),
        Widget::Drag {
            quantity: Quantity::TimeScale,
            speed: Some(Decimal { units: 5, places: 2 }),
            limits: Some(between(Decimal { units: 1, places: 2 }, whole(100))),
        },
        Widget::EndRow,
        Widget::Close,
        Widget::Separator,
        Widget::Open(Group::Horizontal),
        Widget::RaiseTo { quantity: Quantity::FastForwardLength, bound: Bound::StepLength },
        Widget::Drag {
            quantity: Quantity::FastForwardLength,
            speed: Some(Decimal { units: 1, places: 2 }),
            limits: Some(Bounds { lower: Bound::StepLength, upper: Bound::Fixed(whole(120)) }),
        },
        Widget::Button { button: Button::FastForward, label: "Fast Forward" },
        Widget::Label(Text::LastFastForward),
        Widget::Close,
        Widget::RecordingControls,
    ]
}

/// Lays out the controls of the simulation.
pub fn setup_ui_simulation_control(status: SimulationControllerStatus) -> (widgets: Vec<Widget>)
    ensures
        widgets@ == simulation_control_panel(status),
{
    let pause_or_resume = if status == SimulationControllerStatus::Paused {
        "Continue  (Space)"
    } else {
        "Pause  (Space)"
    };
    let widgets = vec![
        Widget::Open(Group::Horizontal),
        Widget::Button { button: Button::Reset, label: "Reset" },
        Widget::Button { button: Button::PauseOrResume, label: pause_or_resume },
        Widget::Close,
        Widget::Open(Group::Horizontal),
        fixed_label("total num simulation steps:"),
        Widget::Strong(Text::TotalSteps),
        Widget::Close,
        Widget::Separator,
        Widget::Open(Group::Grid("simulation controls")),
        fixed_label("target simulation time (s)"),
        Widget::Drag {
            quantity: Quantity::TargetTime,
            speed: Some(Decimal { units: 1, places: 1 }),
            limits: None,
        },
        Widget::EndRow,
        fixed_label("simulation steps per second"),
        Widget::Drag {
            quantity: Quantity::StepsPerSecond,
            speed: Some(Decimal { units: 10, places: 0 }),
            limits: None,
        },
        Widget::EndRow,
        fixed_label("time scale"),
        Widget::Drag {
            quantity: Quantity::TimeScale,
            speed: Some(Decimal { units: 5, places: 2 }),
            limits: Some(
                fixed_bounds(Decimal { units: 1, places: 2 }, Decimal { units: 100, places: 0 }),
            ),
        },
        Widget::EndRow,
        Widget::Close,
        Widget::Separator,
        Widget::Open(Group::Horizontal),
        Widget::RaiseTo { quantity: Quantity::FastForwardLength, bound: Bound::StepLength },
        Widget::Drag {
            quantity: Quantity::FastForwardLength,
            speed: Some(Decimal { units: 1, places: 2 }),
            limits: Some(
                Bounds {
                    lower: Bound::StepLength,
                    upper: Bound::Fixed(Decimal { units: 120, places: 0 }),
                },
            ),
        },
        Widget::Button { button: Button::FastForward, label: "Fast Forward" },
        Widget::Label(Text::LastFastForward),
        Widget::Close,
        Widget::RecordingControls,
    ];
    assert(widgets@ =~= simulation_control_panel(status));
    widgets
}

/// The controls of the recording: a running one can be ended, else one can be started.
pub open spec fn recording_panel(status: SimulationControllerStatus) -> Seq<Widget> {
    if status == SimulationControllerStatus::RecordingWithFixedFrameLength {
        seq![Widget::Button { button: Button::EndRecording, label: "End Recording" }]
    } else {
        seq![
            Widget::Open(Group::Horizontal),
            Widget::Button { button: Button::ResetAndRecord, label: "Reset & Record Video" },
            Widget::Open(Group::Horizontal),
            Widget::Drag {
                quantity: Quantity::VideoFps,
                speed: None,
                limits: Some(between(whole(10), whole(300))),
            },
            label("video fps"),
            Widget::Close,
            Widget::Close,
        ]
    }
}

/// Lays out the controls of the recording.
pub fn setup_ui_recording(status: SimulationControllerStatus) -> (widgets: Vec<Widget>)
    ensures
        widgets@ == recording_panel(status),
{
    let widgets = if status == SimulationControllerStatus::RecordingWithFixedFrameLength {
        vec![Widget::Button { button: Button::EndRecording, label: "End Recording" }]
    } else {
        vec![
            Widget::Open(Group::Horizontal),
            Widget::Button { button: Button::ResetAndRecord, label: "Reset & Record Video" },
            Widget::Open(Group::Horizontal),
            Widget::Drag {
                quantity: Quantity::VideoFps,
                speed: None,
                limits: Some(
                    fixed_bounds(
                        Decimal { units: 10, places: 0 },
                        Decimal { units: 300, places: 0 },
                    ),
                ),
            },
            fixed_label("video fps"),
            Widget::Close,
            Widget::Close,
        ]
    };
    assert(widgets@ =~= recording_panel(status));
    widgets
}

/// All entries of a list to choose from, in order.
pub open spec fn choices(combo: Combo, count: nat) -> Seq<Widget> {
    Seq::new(count, |i: int| Widget::Choice { combo, index: i as usize })
}

/// A list to choose from.
pub open spec fn combo_box(combo: Combo, title: &'static str, count: nat) -> Seq<Widget> {
    seq![Widget::Open(Group::Combo { combo, label: title })] + choices(combo, count) + seq![
        Widget::Close,
    ]
}

fn push_combo_box(widgets: &mut Vec<Widget>, combo: Combo, title: &'static str, count: usize)
    ensures
        final(widgets)@ == old(widgets)@ + combo_box(combo, title, count as nat),
{
    widgets.push(Widget::Open(Group::Combo { combo, label: title }));
    let ghost opened = widgets@;
    let mut i: usize = 0;
    assert(widgets@ =~= opened + choices(combo, 0));
    while i < count
        invariant
            i <= count,
            widgets@ == opened + choices(combo, i as nat),
        decreases count - i,
    {
        widgets.push(Widget::Choice { combo, index: i });
        assert(widgets@ =~= opened + choices(combo, (i + 1) as nat));
        i += 1;
    }
    widgets.push(Widget::Close);
    assert(widgets@ =~= old(widgets)@ + combo_box(combo, title, count as nat));
}

/// The panel of the scene: its size, and the scenes to choose from.
pub open spec fn scene_panel(scene_count: nat) -> Seq<Widget> {
    seq![
        Widget::SliderWidth(250),
        Widget::Open(Group::Horizontal),
        label("volume resolution:"),
        Widget::Strong(Text::GridDimension),
        Widget::Close,
        Widget::Open(Group::Horizontal),
        label("num particles:"),
        Widget::Strong(Text::ParticleCount),
        Widget::Close,
        Widget::Separator,
    ] + combo_box(Combo::Scene, "Scene Selection", scene_count)
}

/// Lays out the panel of the scene.
pub fn setup_ui_scene_settings(scene_count: usize) -> (widgets: Vec<Widget>)
    ensures
        widgets@ == scene_panel(scene_count as nat),
{
    let mut widgets = vec![
        Widget::SliderWidth(250),
        Widget::Open(Group::Horizontal),
        fixed_label("volume resolution:"),
        Widget::Strong(Text::GridDimension),
        Widget::Close,
        Widget::Open(Group::Horizontal),
        fixed_label("num particles:"),
        Widget::Strong(Text::ParticleCount),
        Widget::Close,
        Widget::Separator,
    ];
    push_combo_box(&mut widgets, Combo::Scene, "Scene Selection", scene_count);
    assert(widgets@ =~= scene_panel(scene_count as nat));
    widgets
}

/// The panel of the renderer.
pub open spec fn render_panel(fluid_modes: nat, volume_modes: nat) -> Seq<Widget> {
    seq![
        Widget::Open(Group::Grid("render settings")),
        Widget::SliderWidth(170),
        label("Fluid Rendering"),
    ] + combo_box(Combo::FluidRendering, "Fluid Rendering", fluid_modes) + seq![
        Widget::EndRow,
        label("Particle Radius Factor"),
        Widget::Slider {
            quantity: Quantity::ParticleRadiusFactor,
            bounds: between(whole(0), whole(1)),
            logarithmic: false,
            text: "",
        },
        Widget::EndRow,
        label("Volume Visualization"),
    ] + combo_box(Combo::VolumeVisualization, "Volume Visualization", volume_modes) + seq![
        Widget::EndRow,
        Widget::Checkbox { toggle: Toggle::VoxelVisualization, label: "Voxel Visualization" },
        Widget::EndRow,
        label("Velocity Visualization Scale"),
        Widget::Slider {
            quantity: Quantity::VelocityScale,
            bounds: between(Decimal { units: 1, places: 3 }, whole(5)),
            logarithmic: true,
            text: "",
        },
        Widget::Close,
        Widget::Checkbox { toggle: Toggle::MeshRendering, label: "Render meshes" },
        Widget::Checkbox { toggle: Toggle::BoxLines, label: "Show Fluid Domain Bounds" },
    ]
}

/// Lays out the panel of the renderer.
pub fn setup_ui_render_settings(fluid_modes: usize, volume_modes: usize) -> (widgets: Vec<Widget>)
    ensures
        widgets@ == render_panel(fluid_modes as nat, volume_modes as nat),
{
    let mut widgets = vec![
        Widget::Open(Group::Grid("render settings")),
        Widget::SliderWidth(170),
        fixed_label("Fluid Rendering"),
    ];
    push_combo_box(&mut widgets, Combo::FluidRendering, "Fluid Rendering", fluid_modes);
    let mut radius = vec![
        Widget::EndRow,
        fixed_label("Particle Radius Factor"),
        Widget::Slider {
            quantity: Quantity::ParticleRadiusFactor,
            bounds: fixed_bounds(
                Decimal { units: 0, places: 0 },
                Decimal { units: 1, places: 0 },
            ),
            logarithmic: false,
            text: "",
        },
        Widget::EndRow,
        fixed_label("Volume Visualization"),
    ];
    widgets.append(&mut radius);
    push_combo_box(
        &mut widgets,
        Combo::VolumeVisualization,
        "Volume Visualization",
        volume_modes,
    );
    let mut rest = vec![
        Widget::EndRow,
        Widget::Checkbox { toggle: Toggle::VoxelVisualization, label: "Voxel Visualization" },
        Widget::EndRow,
        fixed_label("Velocity Visualization Scale"),
        Widget::Slider {
            quantity: Quantity::VelocityScale,
            bounds: fixed_bounds(
                Decimal { units: 1, places: 3 },
                Decimal { units: 5, places: 0 },
            ),
            logarithmic: true,
            text: "",
        },
        Widget::Close,
        Widget::Checkbox { toggle: Toggle::MeshRendering, label: "Render meshes" },
        Widget::Checkbox { toggle: Toggle::BoxLines, label: "Show Fluid Domain Bounds" },
    ];
    widgets.append(&mut rest);
    assert(widgets@ =~= render_panel(fluid_modes as nat, volume_modes as nat));
    widgets
}

/// A section of the window under a header.
pub open spec fn section(title: &'static str, default_open: bool, body: Seq<Widget>) -> Seq<
    Widget,
> {
    seq![Widget::Open(Group::Collapsing { title, default_open })] + body + seq![Widget::Close]
}

fn push_section(
    widgets: &mut Vec<Widget>,
    title: &'static str,
    default_open: bool,
    body: Vec<Widget>,
)
    ensures
        final(widgets)@ == old(widgets)@ + section(title, default_open, body@),
{
    let mut inner = body;
    widgets.push(Widget::Open(Group::Collapsing { title, default_open }));
    widgets.append(&mut inner);
    widgets.push(Widget::Close);
    assert(widgets@ =~= old(widgets)@ + section(title, default_open, body@));
}

/// The profiling data of one kind, with a button to save it.
pub open spec fn profiler_panel(profile: Profile, levels_default_open: i32) -> Seq<Widget> {
    seq![
        Widget::Button { button: Button::WriteChrometrace(profile), label: "Write Chrometrace" },
        Widget::ProfilerRows { profile, levels_default_open },
    ]
}

/// The header of the section that shows profiling data.
pub open spec fn profiler_title(profile: Profile) -> &'static str {
    match profile {
        Profile::Simulation => "Profiler - Single Simulation Frame",
        Profile::Rendering => "Profiler - Rendering",
    }
}

/// The whole window.
pub open spec fn window_panel(
    status: SimulationControllerStatus,
    scene_count: nat,
    fluid_modes: nat,
    volume_modes: nat,
) -> Seq<Widget> {
    timer_panel(status) + section(
        "Solver",
        false,
        solver_panel() + seq![
            Widget::Separator,
            Widget::Slider {
                quantity: Quantity::ParticleBinningFrequency,
                bounds: between(whole(0), whole(300)),
                logarithmic: false,
                text: "particle binning frequency",
            },
        ],
    ) + section("Simulation Controller & Recording", true, simulation_control_panel(status))
        + section("Scene Settings", true, scene_panel(scene_count)) + section(
        "Rendering Settings",
        true,
        render_panel(fluid_modes, volume_modes),
    ) + section(
        profiler_title(Profile::Simulation),
        false,
        profiler_panel(Profile::Simulation, 2),
    ) + section(profiler_title(Profile::Rendering), false, profiler_panel(Profile::Rendering, 4))
}

/// Lays out the whole window.
pub fn setup_ui(
    status: SimulationControllerStatus,
    scene_count: usize,
    fluid_modes: usize,
    volume_modes: usize,
) -> (widgets: Vec<Widget>)
    ensures
        widgets@ == window_panel(
            status,
            scene_count as nat,
            fluid_modes as nat,
            volume_modes as nat,
        ),
{
    let mut widgets = setup_ui_timer(status);
    let mut solver = setup_ui_solver();
    solver.push(Widget::Separator);
    solver.push(
        Widget::Slider {
            quantity: Quantity::ParticleBinningFrequency,
            bounds: fixed_bounds(
                Decimal { units: 0, places: 0 },
                Decimal { units: 300, places: 0 },
            ),
            logarithmic: false,
            text: "particle binning frequency",
        },
    );
    assert(solver@ =~= solver_panel() + seq![
        Widget::Separator,
        Widget::Slider {
            quantity: Quantity::ParticleBinningFrequency,
            bounds: between(whole(0), whole(300)),
            logarithmic: false,
            text: "particle binning frequency",
        },
    ]);
    push_section(&mut widgets, "Solver", false, solver);
    push_section(
        &mut widgets,
        "Simulation Controller & Recording",
        true,
        setup_ui_simulation_control(status),
    );
    push_section(&mut widgets, "Scene Settings", true, setup_ui_scene_settings(scene_count));
    push_section(
        &mut widgets,
        "Rendering Settings",
        true,
        setup_ui_render_settings(fluid_modes, volume_modes),
    );
    let simulation = vec![
        Widget::Button {
            button: Button::WriteChrometrace(Profile::Simulation),
            label: "Write Chrometrace",
        },
        Widget::ProfilerRows { profile: Profile::Simulation, levels_default_open: 2 },
    ];
    assert(simulation@ =~= profiler_panel(Profile::Simulation, 2));
    push_section(&mut widgets, "Profiler - Single Simulation Frame", false, simulation);
    let rendering = vec![
        Widget::Button {
            button: Button::WriteChrometrace(Profile::Rendering),
            label: "Write Chrometrace",
        },
        Widget::ProfilerRows { profile: Profile::Rendering, levels_default_open: 4 },
    ];
    assert(rendering@ =~= profiler_panel(Profile::Rendering, 4));
    push_section(&mut widgets, "Profiler - Rendering", false, rendering);
    widgets
}

/// How deep the groups are nested after the first `count` widgets; negative once a `Close` had
/// no `Open`.
pub open spec fn depth_at(widgets: Seq<Widget>, count: int, depth: int) -> int
    decreases count,
{
    if count <= 0 {
        depth
    } else {
        let before = depth_at(widgets, count - 1, depth);
        if before < 0 {
            before
        } else {
            match widgets[count - 1] {
                Widget::Open(_) => before + 1,
                Widget::Close => before - 1,
                _ => before,
            }
        }
    }
}

/// How deep the groups are nested after all widgets.
pub open spec fn depth_after(widgets: Seq<Widget>, depth: int) -> int {
    depth_at(widgets, widgets.len() as int, depth)
}

/// Whether every group that is opened is closed, and none is closed that was not opened.
pub open spec fn is_nested(widgets: Seq<Widget>) -> bool {
    forall|depth: int| depth >= 0 ==> #[trigger] depth_after(widgets, depth) == depth
}

proof fn lemma_depth_of_prefix(a: Seq<Widget>, b: Seq<Widget>, count: int, depth: int)
    requires
        0 <= count <= a.len(),
    ensures
        depth_at(a + b, count, depth) == depth_at(a, count, depth),
    decreases count,
{
    if count > 0 {
        lemma_depth_of_prefix(a, b, count - 1, depth);
    }
}

proof fn lemma_depth_of_suffix(a: Seq<Widget>, b: Seq<Widget>, count: int, depth: int)
    requires
        0 <= count <= b.len(),
    ensures
        depth_at(a + b, a.len() + count, depth) == depth_at(b, count, depth_after(a, depth)),
    decreases count,
{
    if count > 0 {
        lemma_depth_of_suffix(a, b, count - 1, depth);
        assert((a + b)[a.len() + count - 1] == b[count - 1]);
    } else {
        lemma_depth_of_prefix(a, b, a.len() as int, depth);
    }
}

proof fn lemma_depth_of_sum(a: Seq<Widget>, b: Seq<Widget>, depth: int)
    ensures
        depth_after(a + b, depth) == depth_after(b, depth_after(a, depth)),
{
    lemma_depth_of_suffix(a, b, b.len() as int, depth);
}

proof fn lemma_sum_is_nested(a: Seq<Widget>, b: Seq<Widget>)
    requires
        is_nested(a),
        is_nested(b),
    ensures
        is_nested(a + b),
{
    assert forall|depth: int| depth >= 0 implies #[trigger] depth_after(a + b, depth) == depth by {
        lemma_depth_of_sum(a, b, depth);
    }
}

proof fn lemma_group_is_nested(group: Group, body: Seq<Widget>)
    requires
        is_nested(body),
    ensures
        is_nested(seq![Widget::Open(group)] + body + seq![Widget::Close]),
{
    let open = seq![Widget::Open(group)];
    let close = seq![Widget::Close];
    assert forall|depth: int| depth >= 0 implies #[trigger] depth_after(
        open + body + close,
        depth,
    ) == depth by {
        reveal_with_fuel(depth_at, 2);
        lemma_depth_of_sum(open + body, close, depth);
        lemma_depth_of_sum(open, body, depth);
        assert(depth_after(open, depth) == depth + 1);
    }
}

proof fn lemma_choices_are_nested(combo: Combo, count: nat)
    ensures
        is_nested(choices(combo, count)),
{
    assert forall|depth: int| depth >= 0 implies #[trigger] depth_after(
        choices(combo, count),
        depth,
    ) == depth by {
        lemma_depth_of_choices(combo, count, count as int, depth);
    }
}

proof fn lemma_depth_of_choices(combo: Combo, count: nat, first: int, depth: int)
    requires
        0 <= first <= count,
        depth >= 0,
    ensures
        depth_at(choices(combo, count), first, depth) == depth,
    decreases first,
{
    if first > 0 {
        lemma_depth_of_choices(combo, count, first - 1, depth);
    }
}

proof fn lemma_combo_box_is_nested(combo: Combo, title: &'static str, count: nat)
    ensures
        is_nested(combo_box(combo, title, count)),
{
    lemma_choices_are_nested(combo, count);
    lemma_group_is_nested(Group::Combo { combo, label: title }, choices(combo, count));
}

proof fn lemma_timer_panel_is_nested(status: SimulationControllerStatus)
    ensures
        is_nested(timer_panel(status)),
{
    reveal_with_fuel(depth_at, 32);
    let body = if status == SimulationControllerStatus::RecordingWithFixedFrameLength {
        seq![Widget::Alert(Text::RecordingFps)]
    } else {
        seq![label("rendered time:"), Widget::Strong(Text::RenderedTime)]
    };
    let head = seq![
        Widget::Heading(Text::FrameTimeAndFps),
        Widget::BarChart { chart: Chart::FrameTimes, width: None, height: 40 },
        Widget::Checkbox { toggle: Toggle::WaitForVblank, label: "wait for vsync" },
        Widget::Separator,
        Widget::Open(Group::Horizontal),
        label("num simulation steps current frame:"),
        Widget::Strong(Text::StepsInFrame),
        Widget::Close,
        Widget::Open(Group::Grid("timers")),
    ];
    let tail = seq![
        Widget::EndRow,
        label("simulated time:"),
        Widget::Strong(Text::SimulatedTime),
        Widget::Close,
    ];
    assert forall|depth: int| depth >= 0 implies #[trigger] depth_after(timer_panel(status), depth)
        == depth by {
        lemma_depth_of_sum(head + body, tail, depth);
        lemma_depth_of_sum(head, body, depth);
    }
}

proof fn lemma_solver_panel_is_nested()
    ensures
        is_nested(solver_panel()),
{
    reveal_with_fuel(depth_at, 32);
    assert(is_nested(solver_stats_panel(Solver::Velocity)));
    assert(is_nested(solver_stats_panel(Solver::Density)));
    assert(is_nested(solver_config_panel()));
    let primary = seq![label("pressure solver, primary (via velocity)")];
    let secondary = seq![Widget::Separator, label("pressure solver, secondary (via density)")];
    let separator = seq![Widget::Separator];
    let share = seq![Widget::ShareSolverConfig];
    assert(is_nested(primary));
    assert(is_nested(secondary));
    assert(is_nested(separator));
    assert(is_nested(share));
    lemma_sum_is_nested(primary, solver_stats_panel(Solver::Velocity));
    lemma_sum_is_nested(primary + solver_stats_panel(Solver::Velocity), secondary);
    let half = primary + solver_stats_panel(Solver::Velocity) + secondary;
    lemma_sum_is_nested(half, solver_stats_panel(Solver::Density));
    lemma_sum_is_nested(half + solver_stats_panel(Solver::Density), separator);
    let most = half + solver_stats_panel(Solver::Density) + separator;
    lemma_sum_is_nested(most, solver_config_panel());
    lemma_sum_is_nested(most + solver_config_panel(), share);
}

proof fn lemma_scene_panel_is_nested(scene_count: nat)
    ensures
        is_nested(scene_panel(scene_count)),
{
    reveal_with_fuel(depth_at, 32);
    let head = seq![
        Widget::SliderWidth(250),
        Widget::Open(Group::Horizontal),
        label("volume resolution:"),
        Widget::Strong(Text::GridDimension),
        Widget::Close,
        Widget::Open(Group::Horizontal),
        label("num particles:"),
        Widget::Strong(Text::ParticleCount),
        Widget::Close,
        Widget::Separator,
    ];
    assert(is_nested(head));
    lemma_combo_box_is_nested(Combo::Scene, "Scene Selection", scene_count);
    lemma_sum_is_nested(head, combo_box(Combo::Scene, "Scene Selection", scene_count));
}

proof fn lemma_render_panel_is_nested(fluid_modes: nat, volume_modes: nat)
    ensures
        is_nested(render_panel(fluid_modes, volume_modes)),
{
    let fluid = combo_box(Combo::FluidRendering, "Fluid Rendering", fluid_modes);
    let volume = combo_box(Combo::VolumeVisualization, "Volume Visualization", volume_modes);
    lemma_combo_box_is_nested(Combo::FluidRendering, "Fluid Rendering", fluid_modes);
    lemma_combo_box_is_nested(Combo::VolumeVisualization, "Volume Visualization", volume_modes);
    let head = seq![
        Widget::Open(Group::Grid("render settings")),
        Widget::SliderWidth(170),
        label("Fluid Rendering"),
    ];
    let radius = seq![
        Widget::EndRow,
        label("Particle Radius Factor"),
        Widget::Slider {
            quantity: Quantity::ParticleRadiusFactor,
            bounds: between(whole(0), whole(1)),
            logarithmic: false,
            text: "",
        },
        Widget::EndRow,
        label("Volume Visualization"),
    ];
    let tail = seq![
        Widget::EndRow,
        Widget::Checkbox { toggle: Toggle::VoxelVisualization, label: "Voxel Visualization" },
        Widget::EndRow,
        label("Velocity Visualization Scale"),
        Widget::Slider {
            quantity: Quantity::VelocityScale,
            bounds: between(Decimal { units: 1, places: 3 }, whole(5)),
            logarithmic: true,
            text: "",
        },
        Widget::Close,
        Widget::Checkbox { toggle: Toggle::MeshRendering, label: "Render meshes" },
        Widget::Checkbox { toggle: Toggle::BoxLines, label: "Show Fluid Domain Bounds" },
    ];
    assert forall|depth: int| depth >= 0 implies #[trigger] depth_after(
        render_panel(fluid_modes, volume_modes),
        depth,
    ) == depth by {
        lemma_depth_of_sum(head + fluid + radius + volume, tail, depth);
        lemma_depth_of_sum(head + fluid + radius, volume, depth);
        lemma_depth_of_sum(head + fluid, radius, depth);
        lemma_depth_of_sum(head, fluid, depth);
        assert(depth_after(head, depth) == depth + 1) by {
            reveal_with_fuel(depth_at, 4);
        }
        assert(depth_after(fluid, depth + 1) == depth + 1);
        assert(depth_after(radius, depth + 1) == depth + 1) by {
            reveal_with_fuel(depth_at, 6);
        }
        assert(depth_after(volume, depth + 1) == depth + 1);
        assert(depth_after(tail, depth + 1) == depth) by {
            reveal_with_fuel(depth_at, 9);
        }
    }
}

/// Whatever the state of the application, the groups of the window nest: each is closed where
/// it belongs. The same holds of the controls of the recording, which stand in for their mark.
pub proof fn law_window_is_nested(
    status: SimulationControllerStatus,
    scene_count: nat,
    fluid_modes: nat,
    volume_modes: nat,
)
    ensures
        is_nested(window_panel(status, scene_count, fluid_modes, volume_modes)),
        is_nested(recording_panel(status)),
{
    assert(is_nested(recording_panel(status))) by {
        reveal_with_fuel(depth_at, 8);
    }
    lemma_timer_panel_is_nested(status);
    lemma_solver_panel_is_nested();
    lemma_scene_panel_is_nested(scene_count);
    lemma_render_panel_is_nested(fluid_modes, volume_modes);
    assert(is_nested(simulation_control_panel(status))) by {
        reveal_with_fuel(depth_at, 32);
    }
    assert(is_nested(profiler_panel(Profile::Simulation, 2))) by {
        reveal_with_fuel(depth_at, 3);
    }
    assert(is_nested(profiler_panel(Profile::Rendering, 4))) by {
        reveal_with_fuel(depth_at, 3);
    }
    let binning = seq![
        Widget::Separator,
        Widget::Slider {
            quantity: Quantity::ParticleBinningFrequency,
            bounds: between(whole(0), whole(300)),
            logarithmic: false,
            text: "particle binning frequency",
        },
    ];
    assert(is_nested(binning)) by {
        reveal_with_fuel(depth_at, 3);
    }
    lemma_sum_is_nested(solver_panel(), binning);
    let a = timer_panel(status);
    let b = section("Solver", false, solver_panel() + binning);
    let c = section("Simulation Controller & Recording", true, simulation_control_panel(status));
    let d = section("Scene Settings", true, scene_panel(scene_count));
    let e = section("Rendering Settings", true, render_panel(fluid_modes, volume_modes));
    let f = section(
        profiler_title(Profile::Simulation),
        false,
        profiler_panel(Profile::Simulation, 2),
    );
    let g = section(
        profiler_title(Profile::Rendering),
        false,
        profiler_panel(Profile::Rendering, 4),
    );
    lemma_section_is_nested("Solver", false, solver_panel() + binning);
    lemma_section_is_nested(
        "Simulation Controller & Recording",
        true,
        simulation_control_panel(status),
    );
    lemma_section_is_nested("Scene Settings", true, scene_panel(scene_count));
    lemma_section_is_nested("Rendering Settings", true, render_panel(fluid_modes, volume_modes));
    lemma_section_is_nested(
        profiler_title(Profile::Simulation),
        false,
        profiler_panel(Profile::Simulation, 2),
    );
    lemma_section_is_nested(
        profiler_title(Profile::Rendering),
        false,
        profiler_panel(Profile::Rendering, 4),
    );
    lemma_sum_is_nested(a, b);
    lemma_sum_is_nested(a + b, c);
    lemma_sum_is_nested(a + b + c, d);
    lemma_sum_is_nested(a + b + c + d, e);
    lemma_sum_is_nested(a + b + c + d + e, f);
    lemma_sum_is_nested(a + b + c + d + e + f, g);
}

proof fn lemma_section_is_nested(title: &'static str, default_open: bool, body: Seq<Widget>)
    requires
        is_nested(body),
    ensures
        is_nested(section(title, default_open, body)),
{
    lemma_group_is_nested(Group::Collapsing { title, default_open }, body);
}

/// Whether the group that is opened at `open` is closed at `close`: what lies between nests.
pub open spec fn closes(widgets: Seq<Widget>, open: int, close: int) -> bool {
    &&& open < close < widgets.len()
    &&& widgets[close] is Close
    &&& is_nested(widgets.subrange(open + 1, close))
}

/// Groups around a list do not matter as long as it closes none of them.
proof fn lemma_depth_shift(widgets: Seq<Widget>, count: int, depth: int)
    requires
        depth >= 0,
        depth_at(widgets, count, 0) >= 0,
    ensures
        depth_at(widgets, count, depth) == depth_at(widgets, count, 0) + depth,
    decreases count,
{
    if count > 0 {
        lemma_depth_shift(widgets, count - 1, depth);
    }
}

/// A negative depth stays.
proof fn lemma_negative_depth(widgets: Seq<Widget>, count: int, depth: int)
    requires
        depth < 0,
    ensures
        depth_at(widgets, count, depth) == depth,
    decreases count,
{
    if count > 0 {
        lemma_negative_depth(widgets, count - 1, depth);
    }
}

/// The first widgets behind `open` nest exactly if they leave the depth at zero.
pub(crate) proof fn lemma_body_is_nested(widgets: Seq<Widget>, open: int, close: int)
    requires
        0 <= open < close <= widgets.len(),
    ensures
        is_nested(widgets.subrange(open + 1, close)) <==> depth_at(
            widgets.subrange(open + 1, widgets.len() as int),
            close - open - 1,
            0,
        ) == 0,
{
    let rest = widgets.subrange(open + 1, widgets.len() as int);
    let body = widgets.subrange(open + 1, close);
    let behind = widgets.subrange(close, widgets.len() as int);
    assert(rest =~= body + behind);
    lemma_depth_of_prefix(body, behind, close - open - 1, 0);
    assert(depth_after(body, 0) == depth_at(rest, close - open - 1, 0));
    if depth_after(body, 0) == 0 {
        assert forall|depth: int| depth >= 0 implies #[trigger] depth_after(body, depth)
            == depth by {
            lemma_depth_shift(body, body.len() as int, depth);
        }
    }
}

/// Finds where a group is closed; none if it is not.
pub fn group_end(widgets: &[Widget], open: usize) -> (close: Option<usize>)
    requires
        open < widgets@.len(),
    ensures
        match close {
            Some(close) => closes(widgets@, open as int, close as int),
            None => forall|close: int| !closes(widgets@, open as int, close),
        },
{
    let n: usize = widgets.len();
    let ghost rest = widgets@.subrange(open + 1, n as int);
    let mut depth: usize = 0;
    let mut i: usize = open + 1;
    while i < n
        invariant
            n == widgets@.len(),
            open < i <= n,
            rest == widgets@.subrange(open + 1, n as int),
            depth <= i - open - 1,
            depth == depth_at(rest, i - open - 1, 0),
            forall|close: int| close < i ==> !closes(widgets@, open as int, close),
        decreases n - i,
    {
        proof {
            lemma_body_is_nested(widgets@, open as int, i as int);
            assert(rest[i - open - 1] == widgets@[i as int]);
        }
        match widgets[i] {
            Widget::Open(_) => {
                depth += 1;
            },
            Widget::Close => {
                if depth == 0 {
                    return Some(i);
                }
                depth -= 1;
            },
            _ => {},
        }
        i += 1;
    }
    None
}

/// In a list that nests every group is closed, at one place only.
pub proof fn law_groups_are_closed(widgets: Seq<Widget>, open: int)
    requires
        is_nested(widgets),
        0 <= open < widgets.len(),
        widgets[open] is Open,
    ensures
        exists|close: int| closes(widgets, open, close),
        forall|first: int, second: int|
            closes(widgets, open, first) && closes(widgets, open, second) ==> first == second,
{
    let n = widgets.len() as int;
    let rest = widgets.subrange(open + 1, n);
    if forall|close: int| !closes(widgets, open, close) {
        lemma_depth_of_unclosed(widgets, open, n);
        let before = widgets.subrange(0, open + 1);
        assert(widgets =~= before + rest);
        lemma_depth_of_sum(before, rest, 0);
        assert(depth_after(widgets, 0) == 0);
        if depth_after(before, 0) < 0 {
            lemma_negative_depth(rest, rest.len() as int, depth_after(before, 0));
        } else {
            lemma_depth_shift(rest, rest.len() as int, depth_after(before, 0));
            assert(before[open] is Open);
            assert(depth_after(before, 0) > 0);
        }
    }
    assert forall|first: int, second: int|
        closes(widgets, open, first) && closes(widgets, open, second) implies first == second by {
        if first < second {
            lemma_closed_once(widgets, open, first, second);
        }
        if second < first {
            lemma_closed_once(widgets, open, second, first);
        }
    }
}

/// Behind a group that is closed nowhere the depth never falls.
pub(crate) proof fn lemma_depth_of_unclosed(widgets: Seq<Widget>, open: int, end: int)
    requires
        0 <= open < end <= widgets.len(),
        forall|close: int| !closes(widgets, open, close),
    ensures
        depth_at(widgets.subrange(open + 1, widgets.len() as int), end - open - 1, 0) >= 0,
    decreases end,
{
    if end > open + 1 {
        lemma_depth_of_unclosed(widgets, open, end - 1);
        lemma_body_is_nested(widgets, open, end - 1);
        assert(!closes(widgets, open, end - 1));
        assert(widgets.subrange(open + 1, widgets.len() as int)[end - open - 2] == widgets[end - 1]);
    }
}

proof fn lemma_closed_once(widgets: Seq<Widget>, open: int, first: int, second: int)
    requires
        0 <= open,
        closes(widgets, open, first),
        first < second <= widgets.len(),
    ensures
        !is_nested(widgets.subrange(open + 1, second)),
{
    let rest = widgets.subrange(open + 1, widgets.len() as int);
    lemma_body_is_nested(widgets, open, first);
    lemma_body_is_nested(widgets, open, second);
    assert(rest[first - open - 1] == widgets[first]);
    lemma_depth_stays_negative(rest, first - open, second - open - 1);
}

pub(crate) proof fn lemma_depth_stays_negative(widgets: Seq<Widget>, count: int, later: int)
    requires
        0 <= count <= later,
        depth_at(widgets, count, 0) < 0,
    ensures
        depth_at(widgets, later, 0) < 0,
    decreases later,
{
    if count < later {
        lemma_depth_stays_negative(widgets, count, later - 1);
    }
}

/// The number of simulation steps is edited at one place. Behind it the length of a jump is raised
/// to that of a step before it can be edited, and it cannot be set below that.
pub proof fn law_jump_is_at_least_a_step(status: SimulationControllerStatus, i: int, j: int)
    requires
        0 <= i < simulation_control_panel(status).len(),
        0 <= j < simulation_control_panel(status).len(),
        simulation_control_panel(status)[i] matches Widget::Drag {
            quantity: Quantity::StepsPerSecond,
            ..
        },
    ensures
        ({
            let panel = simulation_control_panel(status);
            &&& panel[j] matches Widget::Drag { quantity: Quantity::StepsPerSecond, .. } ==> j == i
            &&& panel[j] matches Widget::Drag {
                quantity: Quantity::FastForwardLength,
                limits,
                ..
            } ==> {
                &&& i < j - 1
                &&& panel[j - 1] == (Widget::RaiseTo {
                    quantity: Quantity::FastForwardLength,
                    bound: Bound::StepLength,
                })
                &&& limits == Some(
                    Bounds { lower: Bound::StepLength, upper: Bound::Fixed(whole(120)) },
                )
            }
        }),
{
}

} // verus!
