//! The panels: every control stands where its text says, does what its text says, and reaches as
//! far as it should.

use crate::events::ApplicationEvent;
use crate::gui::panels::{
    between, depth_at, group_end, lemma_body_is_nested, lemma_depth_of_unclosed,
    lemma_depth_stays_negative, profiler_panel, section, setup_ui, setup_ui_recording,
    setup_ui_render_settings, setup_ui_scene_settings, setup_ui_simulation_control, setup_ui_solver,
    setup_ui_solver_config, setup_ui_solver_stats, setup_ui_timer, whole, Bound, Bounds, Button,
    Chart, Combo, Decimal, Group, Profile, Quantity, Solver, Text, Toggle, Widget,
};
use crate::gui::{GuiCommand, UiEvent, GUI};
use crate::simulation::SimulationControllerStatus;
use std::time::Duration;
use vstd::prelude::*;

verus! {

/// Whether a widget is a label with this text.
pub open spec fn tells(widget: Widget, text: Seq<char>) -> bool {
    widget matches Widget::Label(Text::Fixed(shown)) && shown@ == text
}

/// Whether a widget is the current value of something, in bold.
pub open spec fn shows(widget: Widget, value: Text) -> bool {
    widget matches Widget::Strong(shown) && shown == value
}

/// Whether a bound is fixed, at so many units of so many decimal places.
pub open spec fn is_at(bound: Bound, units: int, places: int) -> bool {
    bound matches Bound::Fixed(decimal) && decimal.units == units && decimal.places == places
}

/// Whether a number is so many units of so many decimal places.
pub open spec fn is_number(number: Option<Decimal>, units: int, places: int) -> bool {
    number matches Some(decimal) && decimal.units == units && decimal.places == places
}

/// Whether a number that is edited can have exactly the values it may have: the tolerated error
/// from 0.0001 to 1, the largest count of iterations from 2 to 128, the errors checked at least
/// once in a run, the particles sorted at most every 300 steps, and so on.
pub open spec fn has_its_range(quantity: Quantity, bounds: Option<Bounds>) -> bool {
    match quantity {
        Quantity::TargetTime | Quantity::StepsPerSecond => bounds is None,
        Quantity::ErrorTolerance => bounds matches Some(b) && is_at(b.lower, 1, 4) && is_at(
            b.upper,
            1,
            0,
        ),
        Quantity::MaxIterationCount => bounds matches Some(b) && is_at(b.lower, 2, 0) && is_at(
            b.upper,
            128,
            0,
        ),
        Quantity::ErrorCheckFrequency => bounds matches Some(b) && is_at(b.lower, 1, 0) && b.upper
            is MaxIterationCount,
        Quantity::ParticleBinningFrequency => bounds matches Some(b) && is_at(b.lower, 0, 0)
            && is_at(b.upper, 300, 0),
        Quantity::TimeScale => bounds matches Some(b) && is_at(b.lower, 1, 2) && is_at(
            b.upper,
            100,
            0,
        ),
        Quantity::FastForwardLength => bounds matches Some(b) && b.lower is StepLength && is_at(
            b.upper,
            120,
            0,
        ),
        Quantity::VideoFps => bounds matches Some(b) && is_at(b.lower, 10, 0) && is_at(
            b.upper,
            300,
            0,
        ),
        Quantity::ParticleRadiusFactor => bounds matches Some(b) && is_at(b.lower, 0, 0) && is_at(
            b.upper,
            1,
            0,
        ),
        Quantity::VelocityScale => bounds matches Some(b) && is_at(b.lower, 1, 3) && is_at(
            b.upper,
            5,
            0,
        ),
    }
}

/// Whether a number that is dragged changes as fast as it should.
pub open spec fn has_its_speed(quantity: Quantity, speed: Option<Decimal>) -> bool {
    match quantity {
        Quantity::TargetTime => is_number(speed, 1, 1),
        Quantity::StepsPerSecond => is_number(speed, 10, 0),
        Quantity::TimeScale => is_number(speed, 5, 2),
        Quantity::FastForwardLength => is_number(speed, 1, 2),
        _ => speed is None,
    }
}

/// What the label in front of a number that is edited says.
pub open spec fn quantity_text(quantity: Quantity) -> Option<Seq<char>> {
    match quantity {
        Quantity::ErrorTolerance => Some("error tolerance"@),
        Quantity::MaxIterationCount => Some("max iteration count"@),
        Quantity::ErrorCheckFrequency => Some("error check frequency count"@),
        Quantity::TargetTime => Some("target simulation time (s)"@),
        Quantity::StepsPerSecond => Some("simulation steps per second"@),
        Quantity::TimeScale => Some("time scale"@),
        Quantity::ParticleRadiusFactor => Some("Particle Radius Factor"@),
        Quantity::VelocityScale => Some("Velocity Visualization Scale"@),
        _ => None,
    }
}

/// What the label in front of a value says.
pub open spec fn value_text(value: Text) -> Option<Seq<char>> {
    match value {
        Text::StepsInFrame => Some("num simulation steps current frame:"@),
        Text::RenderedTime => Some("rendered time:"@),
        Text::SimulatedTime => Some("simulated time:"@),
        Text::TotalSteps => Some("total num simulation steps:"@),
        Text::GridDimension => Some("volume resolution:"@),
        Text::ParticleCount => Some("num particles:"@),
        _ => None,
    }
}

/// Whether the widget at a place is what the text at it says: a button, a box to check or a list
/// has its own text, a value or a number that is edited stands behind its label, and a number has
/// its range. No label, line or group stands there without what it is for.
pub open spec fn is_as_told(widgets: Seq<Widget>, i: int) -> bool {
    match widgets[i] {
        Widget::Button { button, label } => match button {
            Button::Reset => label@ == "Reset"@,
            Button::PauseOrResume => label@ == "Continue  (Space)"@ || label@ == "Pause  (Space)"@,
            Button::FastForward => label@ == "Fast Forward"@,
            Button::EndRecording => label@ == "End Recording"@,
            Button::ResetAndRecord => label@ == "Reset & Record Video"@,
            Button::WriteChrometrace(_) => label@ == "Write Chrometrace"@,
        },
        Widget::Checkbox { toggle, label } => match toggle {
            Toggle::WaitForVblank => label@ == "wait for vsync"@,
            Toggle::VoxelVisualization => label@ == "Voxel Visualization"@,
            Toggle::MeshRendering => label@ == "Render meshes"@,
            Toggle::BoxLines => label@ == "Show Fluid Domain Bounds"@,
        },
        Widget::Slider { quantity, bounds, logarithmic, text } => {
            &&& has_its_range(quantity, Some(bounds))
            &&& logarithmic <==> quantity == Quantity::VelocityScale
            &&& match quantity_text(quantity) {
                Some(told) => i > 0 && tells(widgets[i - 1], told) && text@ == ""@,
                None => quantity == Quantity::ParticleBinningFrequency && text@
                    == "particle binning frequency"@,
            }
        },
        Widget::Drag { quantity, speed, limits } => {
            &&& has_its_range(quantity, limits)
            &&& has_its_speed(quantity, speed)
            &&& match quantity_text(quantity) {
                Some(told) => i > 0 && tells(widgets[i - 1], told),
                None => if quantity == Quantity::VideoFps {
                    i + 1 < widgets.len() && tells(widgets[i + 1], "video fps"@)
                } else {
                    &&& quantity == Quantity::FastForwardLength
                    &&& i > 0
                    &&& widgets[i - 1] == (Widget::RaiseTo { quantity, bound: Bound::StepLength })
                    &&& i + 1 < widgets.len()
                    &&& widgets[i + 1] matches Widget::Button { button: Button::FastForward, .. }
                },
            }
        },
        Widget::Strong(value) => {
            &&& i > 0
            &&& value_text(value) is Some
            &&& tells(widgets[i - 1], value_text(value)->0)
            &&& i + 1 < widgets.len()
            &&& if value is RenderedTime || value is SimulatedTime {
                widgets[i + 1] is EndRow || widgets[i + 1] is Close
            } else {
                i > 1 && widgets[i - 2] == Widget::Open(Group::Horizontal) && widgets[i + 1]
                    is Close
            }
        },
        Widget::Label(Text::Fixed(_)) => {
            ||| i + 1 < widgets.len() && place(widgets[i + 1]) >= 0
            ||| i > 0 && widgets[i - 1] matches Widget::Drag { quantity: Quantity::VideoFps, .. }
        },
        Widget::Separator => {
            &&& i > 0
            &&& widgets[i - 1] is Close || widgets[i - 1] is Checkbox
            &&& i + 1 < widgets.len()
            &&& widgets[i + 1] is Open
        },
        Widget::EndRow => i > 0 && (place(widgets[i - 1]) >= 0 || widgets[i - 1] is Close),
        Widget::SliderWidth(_) => i <= 1,
        Widget::Open(Group::Horizontal) | Widget::Open(Group::Vertical) | Widget::Open(
            Group::Grid(_),
        ) => i + 1 < widgets.len() && !(widgets[i + 1] is Close),
        Widget::Open(Group::Combo { combo, label }) => match combo {
            Combo::Scene => label@ == "Scene Selection"@,
            Combo::FluidRendering => label@ == "Fluid Rendering"@ && i > 0 && tells(
                widgets[i - 1],
                label@,
            ),
            Combo::VolumeVisualization => label@ == "Volume Visualization"@ && i > 0 && tells(
                widgets[i - 1],
                label@,
            ),
        },
        _ => true,
    }
}

/// The place of a control or a value in its panel, from top to bottom; negative for what only
/// arranges them.
pub open spec fn place(widget: Widget) -> int {
    match widget {
        Widget::Heading(Text::FrameTimeAndFps) => 0,
        Widget::BarChart { chart, .. } => match chart {
            Chart::FrameTimes => 1,
            Chart::ResidualErrors { .. } => 0,
            Chart::IterationCounts(_) => 2,
        },
        Widget::Label(Text::NewestError(_)) => 1,
        Widget::Label(Text::NewestIterationCount(_)) => 3,
        Widget::Label(Text::LastFastForward) => 8,
        Widget::Alert(Text::RecordingFps) => 4,
        Widget::Strong(value) => match value {
            Text::StepsInFrame => 3,
            Text::RenderedTime => 4,
            Text::SimulatedTime => 5,
            Text::TotalSteps => 2,
            Text::GridDimension => 0,
            Text::ParticleCount => 1,
            _ => -1,
        },
        Widget::Checkbox { toggle, .. } => match toggle {
            Toggle::WaitForVblank => 2,
            Toggle::VoxelVisualization => 3,
            Toggle::MeshRendering => 5,
            Toggle::BoxLines => 6,
        },
        Widget::Button { button, .. } => match button {
            Button::Reset => 0,
            Button::PauseOrResume => 1,
            Button::FastForward => 7,
            Button::EndRecording => 0,
            Button::ResetAndRecord => 0,
            Button::WriteChrometrace(_) => 0,
        },
        Widget::Slider { quantity, .. } => match quantity {
            Quantity::ErrorTolerance => 0,
            Quantity::MaxIterationCount => 1,
            Quantity::ErrorCheckFrequency => 2,
            Quantity::ParticleRadiusFactor => 1,
            Quantity::VelocityScale => 4,
            _ => -1,
        },
        Widget::Drag { quantity, .. } => match quantity {
            Quantity::TargetTime => 3,
            Quantity::StepsPerSecond => 4,
            Quantity::TimeScale => 5,
            Quantity::FastForwardLength => 6,
            Quantity::VideoFps => 1,
            _ => -1,
        },
        Widget::Open(Group::Combo { combo, .. }) => match combo {
            Combo::Scene => 2,
            Combo::FluidRendering => 0,
            Combo::VolumeVisualization => 2,
        },
        Widget::RecordingControls => 9,
        _ => -1,
    }
}

/// Whether a panel has one widget at each of so many places, from top to bottom, and no more.
pub open spec fn has_places(widgets: Seq<Widget>, count: int) -> bool {
    &&& forall|i: int, j: int|
        #![trigger widgets[i], widgets[j]]
        0 <= i < j < widgets.len() && place(widgets[i]) >= 0 && place(widgets[j]) >= 0 ==> place(
            widgets[i],
        ) < place(widgets[j])
    &&& forall|i: int| 0 <= i < widgets.len() ==> #[trigger] place(widgets[i]) < count
    &&& forall|k: int| 0 <= k < count ==> #[trigger] is_taken(widgets, k)
}

/// Whether a panel has a widget at a place.
pub open spec fn is_taken(widgets: Seq<Widget>, k: int) -> bool {
    exists|i: int| 0 <= i < widgets.len() && #[trigger] place(widgets[i]) == k
}

/// Whether all widgets of a panel are what the texts say.
pub open spec fn are_as_told(widgets: Seq<Widget>) -> bool {
    forall|i: int| 0 <= i < widgets.len() ==> #[trigger] is_as_told(widgets, i)
}

/// Whether a widget is a button with this text.
pub open spec fn is_button(widget: Widget, text: Seq<char>) -> bool {
    widget matches Widget::Button { label, .. } && label@ == text
}

/// In the controls of the simulation, whatever its status, the button that says "Reset" resets and
/// the one that says "Fast Forward" jumps, and no other button does. Of each there is exactly one.
/// The third button pauses; it says so, unless the simulation is paused already.
pub proof fn law_buttons_do_what_they_say(
    status: SimulationControllerStatus,
    widgets: Vec<Widget>,
    i: int,
    j: int,
)
    requires
        call_ensures(setup_ui_simulation_control, (status,), widgets),
        0 <= i < widgets@.len(),
        0 <= j < widgets@.len(),
    ensures
        widgets@[i] matches Widget::Button { button, label } ==> {
            &&& label@ == "Reset"@ <==> button == Button::Reset
            &&& label@ == "Fast Forward"@ <==> button == Button::FastForward
            &&& label@ == "Continue  (Space)"@ <==> button == Button::PauseOrResume && status
                == SimulationControllerStatus::Paused
            &&& label@ == "Pause  (Space)"@ <==> button == Button::PauseOrResume && status
                != SimulationControllerStatus::Paused
        },
        is_button(widgets@[i], "Reset"@) && is_button(widgets@[j], "Reset"@) ==> i == j,
        is_button(widgets@[i], "Fast Forward"@) && is_button(widgets@[j], "Fast Forward"@) ==> i
            == j,
        exists|k: int| 0 <= k < widgets@.len() && #[trigger] is_button(widgets@[k], "Reset"@),
        exists|k: int|
            0 <= k < widgets@.len() && #[trigger] is_button(widgets@[k], "Fast Forward"@),
{
    reveal_strlit("Reset");
    reveal_strlit("Fast Forward");
    reveal_strlit("Continue  (Space)");
    reveal_strlit("Pause  (Space)");
    assert("Reset"@.len() == 5 && "Fast Forward"@.len() == 12);
    assert("Continue  (Space)"@.len() == 17 && "Pause  (Space)"@.len() == 14);
    assert(is_button(widgets@[1], "Reset"@));
    assert(is_button(widgets@[24], "Fast Forward"@));
}

/// Whether a click on a button, with this length of a jump, leads to a command.
pub open spec fn click_leads_to(
    gui: &mut GUI,
    widget: Widget,
    fast_forward_length: Duration,
    command: Option<GuiCommand>,
) -> bool {
    widget matches Widget::Button { button, .. } && call_ensures(
        GUI::on_ui_event,
        (gui, UiEvent::Clicked { button, fast_forward_length }),
        command,
    )
}

/// A click on what says "Reset" resets the scene, a click on what says "Fast Forward" jumps as far
/// as is set, a click on what says that it pauses or continues does that, and a click on what says
/// that it records starts or ends a recording with the frame rate that is set.
pub proof fn law_clicks_do_what_the_buttons_say(
    status: SimulationControllerStatus,
    control: Vec<Widget>,
    recording: Vec<Widget>,
    i: int,
    j: int,
)
    requires
        call_ensures(setup_ui_simulation_control, (status,), control),
        call_ensures(setup_ui_recording, (status,), recording),
        0 <= i < control@.len(),
        0 <= j < recording@.len(),
    ensures
        forall|gui: &mut GUI, length: Duration, command: Option<GuiCommand>| #[trigger]
            click_leads_to(gui, control@[i], length, command) ==> {
                &&& is_button(control@[i], "Reset"@) ==> command == Some(
                    GuiCommand::Send(ApplicationEvent::ResetScene),
                )
                &&& is_button(control@[i], "Fast Forward"@) ==> command == Some(
                    GuiCommand::Send(ApplicationEvent::FastForwardSimulation(length)),
                )
                &&& is_button(control@[i], "Continue  (Space)"@) || is_button(
                    control@[i],
                    "Pause  (Space)"@,
                ) ==> command == Some(GuiCommand::PauseOrResume)
            },
        forall|gui: &mut GUI, length: Duration, command: Option<GuiCommand>| #[trigger]
            click_leads_to(gui, recording@[j], length, command) ==> command == Some(
                if is_button(recording@[j], "End Recording"@) {
                    GuiCommand::PauseOrResume
                } else {
                    GuiCommand::Send(
                        ApplicationEvent::ResetAndStartRecording { recording_fps: gui@.video_fps },
                    )
                },
            ),
{
    law_buttons_do_what_they_say(status, control, i, i);
    reveal_strlit("End Recording");
    reveal_strlit("Reset & Record Video");
    assert("End Recording"@.len() == 13 && "Reset & Record Video"@.len() == 20);
}

/// The timer shows the frame times, the switch of the vertical blank, the steps of the frame and the
/// simulated time, in this order. In the place of the rendered time there is an alert exactly
/// while a recording runs.
pub proof fn law_timer_panel(status: SimulationControllerStatus, widgets: Vec<Widget>, i: int)
    requires
        call_ensures(setup_ui_timer, (status,), widgets),
    ensures
        are_as_told(widgets@),
        has_places(widgets@, 6),
        0 <= i < widgets@.len() ==> {
            &&& widgets@[i] is Alert ==> status
                == SimulationControllerStatus::RecordingWithFixedFrameLength
            &&& shows(widgets@[i], Text::RenderedTime) ==> status
                != SimulationControllerStatus::RecordingWithFixedFrameLength
            &&& widgets@[i] matches Widget::BarChart { width, height, .. } ==> width is None
                && height == 40
            &&& widgets@[i] matches Widget::Open(Group::Grid(name)) ==> name@ == "timers"@
            &&& place(widgets@[i]) == 4 || place(widgets@[i]) == 5 ==> i + 1 < widgets@.len() && (
            widgets@[i + 1] is EndRow || widgets@[i + 1] is Close)
            &&& widgets@[i] is Separator <==> i == 3
        },
{
    let w = widgets@;
    assert(place(w[0]) == 0);
    assert(place(w[1]) == 1);
    assert(place(w[2]) == 2);
    assert(place(w[6]) == 3);
    if status == SimulationControllerStatus::RecordingWithFixedFrameLength {
        assert(place(w[9]) == 4);
        assert(place(w[12]) == 5);
    } else {
        assert(place(w[10]) == 4);
        assert(place(w[13]) == 5);
    }
}

/// The statistics of a solver are those of that solver and of no other: each of the two charts has
/// beside it a label that says what it shows, and below that its newest value. The chart of the
/// errors reaches up to three times what is tolerated.
pub proof fn law_solver_statistics_panel(solver: Solver, widgets: Vec<Widget>, i: int)
    requires
        call_ensures(setup_ui_solver_stats, (solver,), widgets),
    ensures
        are_as_told(widgets@),
        has_places(widgets@, 4),
        0 <= i < widgets@.len() ==> {
            &&& widgets@[i] matches Widget::BarChart { chart, width, height } ==> {
                &&& width == Some(240u32)
                &&& height == 40
                &&& i > 0
                &&& i + 3 < widgets@.len()
                &&& widgets@[i - 1] == Widget::Open(Group::Horizontal)
                &&& widgets@[i + 1] == Widget::Open(Group::Vertical)
                &&& chart == Chart::IterationCounts(solver) ==> tells(
                    widgets@[i + 2],
                    "# solver iterations"@,
                ) && widgets@[i + 3] == Widget::Label(Text::NewestIterationCount(solver))
                &&& chart != Chart::IterationCounts(solver) ==> chart == (Chart::ResidualErrors {
                    solver,
                    tolerances: 3,
                }) && tells(widgets@[i + 2], "max residual error"@) && widgets@[i + 3]
                    == Widget::Label(Text::NewestError(solver))
            }
        },
{
    let w = widgets@;
    assert(place(w[1]) == 0);
    assert(place(w[4]) == 1);
    assert(place(w[8]) == 2);
    assert(place(w[11]) == 3);
}

/// The configuration of the solvers is a grid: each row is a label and the slider that belongs to
/// it, with its range.
pub proof fn law_solver_configuration_panel(widgets: Vec<Widget>, i: int)
    requires
        call_ensures(setup_ui_solver_config, (), widgets),
    ensures
        are_as_told(widgets@),
        has_places(widgets@, 3),
        0 <= i < widgets@.len() ==> {
            &&& widgets@[i] is Slider ==> i + 1 < widgets@.len() && widgets@[i + 1] is EndRow
            &&& widgets@[i] matches Widget::Open(Group::Grid(name)) ==> name@ == "solver config"@
            &&& widgets@[i] is Open <==> i == 0
        },
{
    let w = widgets@;
    assert(place(w[2]) == 0);
    assert(place(w[5]) == 1);
    assert(place(w[8]) == 2);
}

/// The panel of the solvers is the statistics of the one by the velocity, then those of the one by
/// the density, each under its title, then their configuration, which is shared only behind all
/// of these.
pub proof fn law_solver_panel(
    widgets: Vec<Widget>,
    velocity: Vec<Widget>,
    density: Vec<Widget>,
    configuration: Vec<Widget>,
)
    requires
        call_ensures(setup_ui_solver, (), widgets),
        call_ensures(setup_ui_solver_stats, (Solver::Velocity,), velocity),
        call_ensures(setup_ui_solver_stats, (Solver::Density,), density),
        call_ensures(setup_ui_solver_config, (), configuration),
    ensures
        ({
            let first = velocity@.len() as int;
            let second = density@.len() as int;
            let third = configuration@.len() as int;
            let w = widgets@;
            &&& w.len() == first + second + third + 5
            &&& tells(w[0], "pressure solver, primary (via velocity)"@)
            &&& w.subrange(1, 1 + first) == velocity@
            &&& w[first + 1] is Separator
            &&& tells(w[first + 2], "pressure solver, secondary (via density)"@)
            &&& w.subrange(first + 3, first + 3 + second) == density@
            &&& w[first + second + 3] is Separator
            &&& w.subrange(first + second + 4, w.len() - 1) == configuration@
            &&& w.last() is ShareSolverConfig
        }),
{
    let first = velocity@.len() as int;
    let second = density@.len() as int;
    let w = widgets@;
    assert(w.subrange(1, 1 + first) =~= velocity@);
    assert(w.subrange(first + 3, first + 3 + second) =~= density@);
    assert(w.subrange(first + second + 4, w.len() - 1) =~= configuration@);
}

/// The controls of the simulation come in their order, each once and each as its label says. The
/// numbers are rows of a grid between two lines; the recording can be controlled below all.
pub proof fn law_simulation_control_panel(
    status: SimulationControllerStatus,
    widgets: Vec<Widget>,
    i: int,
)
    requires
        call_ensures(setup_ui_simulation_control, (status,), widgets),
    ensures
        are_as_told(widgets@),
        has_places(widgets@, 10),
        widgets@.last() is RecordingControls,
        0 <= i < widgets@.len() ==> {
            &&& 3 <= place(widgets@[i]) <= 5 ==> i + 1 < widgets@.len() && widgets@[i + 1] is EndRow
            &&& widgets@[i] matches Widget::Open(Group::Grid(name)) ==> name@
                == "simulation controls"@ && i > 0 && widgets@[i - 1] is Separator && tells(
                widgets@[i + 1],
                "target simulation time (s)"@,
            )
            &&& widgets@[i] is RaiseTo ==> i > 1 && widgets@[i - 2] is Separator && widgets@[i - 1]
                == Widget::Open(Group::Horizontal) && place(widgets@[i + 1]) == 6
            &&& place(widgets@[i]) == 7 ==> place(widgets@[i + 1]) == 8
            &&& place(widgets@[i]) == 0 ==> i > 0 && widgets@[i - 1] == Widget::Open(
                Group::Horizontal,
            ) && place(widgets@[i + 1]) == 1 && widgets@[i + 2] is Close
        },
{
    let w = widgets@;
    assert(place(w[1]) == 0);
    assert(place(w[2]) == 1);
    assert(place(w[6]) == 2);
    assert(place(w[11]) == 3);
    assert(place(w[14]) == 4);
    assert(place(w[17]) == 5);
    assert(place(w[23]) == 6);
    assert(place(w[24]) == 7);
    assert(place(w[25]) == 8);
    assert(place(w[27]) == 9);
}

/// While a recording runs it can be ended and nothing else; else one can be started, with the frame
/// rate that is edited beside it.
pub proof fn law_recording_panel(status: SimulationControllerStatus, widgets: Vec<Widget>, i: int)
    requires
        call_ensures(setup_ui_recording, (status,), widgets),
    ensures
        are_as_told(widgets@),
        has_places(
            widgets@,
            if status == SimulationControllerStatus::RecordingWithFixedFrameLength {
                1
            } else {
                2
            },
        ),
        0 <= i < widgets@.len() ==> {
            &&& widgets@[i] matches Widget::Button { button, .. } ==> button == if status
                == SimulationControllerStatus::RecordingWithFixedFrameLength {
                Button::EndRecording
            } else {
                Button::ResetAndRecord
            }
            &&& widgets@[i] matches Widget::Open(group) ==> group is Horizontal && i + 1
                < widgets@.len() && place(widgets@[i + 1]) >= 0
        },
{
    let w = widgets@;
    if status == SimulationControllerStatus::RecordingWithFixedFrameLength {
        assert(place(w[0]) == 0);
    } else {
        assert(place(w[1]) == 0);
        assert(place(w[3]) == 1);
    }
}

/// Whether a list to choose from is complete: it is opened at a place, and then the entries come in
/// their order, all of them, and it is closed.
pub open spec fn offers_all(widgets: Seq<Widget>, open: int, combo: Combo, count: int) -> bool {
    &&& 0 <= open
    &&& open + 1 + count < widgets.len()
    &&& widgets[open] matches Widget::Open(Group::Combo { combo: opened, .. }) && opened == combo
    &&& forall|k: int|
        0 <= k < count ==> #[trigger] widgets[open + 1 + k] == (Widget::Choice {
            combo,
            index: k as usize,
        })
    &&& widgets[open + 1 + count] is Close
}

/// The panel of the scene shows its size and its particles, and then offers every known scene,
/// in order.
pub proof fn law_scene_panel(count: usize, widgets: Vec<Widget>, i: int)
    requires
        call_ensures(setup_ui_scene_settings, (count,), widgets),
    ensures
        are_as_told(widgets@),
        has_places(widgets@, 3),
        widgets@[0] == Widget::SliderWidth(250),
        0 <= i < widgets@.len() && place(widgets@[i]) == 2 ==> {
            &&& offers_all(widgets@, i, Combo::Scene, count as int)
            &&& i + 2 + count == widgets@.len()
            &&& widgets@[i - 1] is Separator
        },
        0 <= i < widgets@.len() && 0 <= place(widgets@[i]) < 2 ==> widgets@[i - 2] == Widget::Open(
            Group::Horizontal,
        ) && widgets@[i + 1] is Close,
{
    let w = widgets@;
    assert(w.len() == 12 + count);
    assert(place(w[3]) == 0);
    assert(place(w[7]) == 1);
    assert(place(w[10]) == 2);
    assert forall|k: int| 0 <= k < count implies #[trigger] w[11 + k] == (Widget::Choice {
        combo: Combo::Scene,
        index: k as usize,
    }) by {}
    assert(w[11 + count] is Close);
}

/// Where the widgets of the panel of the renderer stand.
spec fn stand_in_render_panel(w: Seq<Widget>, f: int, v: int) -> bool {
    &&& 0 <= f <= usize::MAX
    &&& 0 <= v <= usize::MAX
    &&& w.len() == f + v + 20
    &&& w[0] matches Widget::Open(Group::Grid(name)) && name@ == "render settings"@
    &&& w[1] == Widget::SliderWidth(170)
    &&& tells(w[2], "Fluid Rendering"@)
    &&& place(w[3]) == 0 && is_as_told(w, 3) && w[3] is Open
    &&& forall|j: int| 4 <= j < 4 + f ==> #[trigger] w[j] == (Widget::Choice {
        combo: Combo::FluidRendering,
        index: (j - 4) as usize,
    })
    &&& w[4 + f] is Close
    &&& w[5 + f] is EndRow
    &&& tells(w[6 + f], "Particle Radius Factor"@)
    &&& place(w[7 + f]) == 1 && is_as_told(w, 7 + f)
    &&& w[8 + f] is EndRow
    &&& tells(w[9 + f], "Volume Visualization"@)
    &&& place(w[10 + f]) == 2 && is_as_told(w, 10 + f) && w[10 + f] is Open
    &&& forall|j: int| 11 + f <= j < 11 + f + v ==> #[trigger] w[j] == (Widget::Choice {
        combo: Combo::VolumeVisualization,
        index: (j - 11 - f) as usize,
    })
    &&& w[11 + f + v] is Close
    &&& w[12 + f + v] is EndRow
    &&& place(w[13 + f + v]) == 3 && is_as_told(w, 13 + f + v)
    &&& w[14 + f + v] is EndRow
    &&& tells(w[15 + f + v], "Velocity Visualization Scale"@)
    &&& place(w[16 + f + v]) == 4 && is_as_told(w, 16 + f + v)
    &&& w[17 + f + v] is Close
    &&& place(w[18 + f + v]) == 5 && is_as_told(w, 18 + f + v)
    &&& place(w[19 + f + v]) == 6 && is_as_told(w, 19 + f + v)
}

#[verifier::rlimit(60)]
proof fn lemma_places_in_render_panel(w: Seq<Widget>, f: int, v: int)
    requires
        stand_in_render_panel(w, f, v),
    ensures
        has_places(w, 7),
        are_as_told(w),
        forall|i: int|
            0 <= i < w.len() ==> {
                &&& #[trigger] place(w[i]) == 0 <==> i == 3
                &&& place(w[i]) == 1 <==> i == 7 + f
                &&& place(w[i]) == 2 <==> i == 10 + f
                &&& place(w[i]) == 3 <==> i == 13 + f + v
                &&& place(w[i]) == 4 <==> i == 16 + f + v
                &&& place(w[i]) == 5 <==> i == 18 + f + v
                &&& place(w[i]) == 6 <==> i == 19 + f + v
            },
{
    assert forall|i: int| 0 <= i < w.len() implies (#[trigger] place(w[i]) == 0 <==> i == 3) && (
    place(w[i]) == 1 <==> i == 7 + f) && (place(w[i]) == 2 <==> i == 10 + f) && (place(w[i]) == 3
        <==> i == 13 + f + v) && (place(w[i]) == 4 <==> i == 16 + f + v) && (place(w[i]) == 5 <==> i
        == 18 + f + v) && (place(w[i]) == 6 <==> i == 19 + f + v) && place(w[i]) < 7 && is_as_told(
        w,
        i,
    ) by {
        let b = 11 + f + v;
        if i < 4 || 4 + f <= i < 11 + f || b <= i {
            assert(i == 0 || i == 1 || i == 2 || i == 3 || i == 4 + f || i == 5 + f || i == 6 + f
                || i == 7 + f || i == 8 + f || i == 9 + f || i == 10 + f || i == b || i == b + 1 || i
                == b + 2 || i == b + 3 || i == b + 4 || i == b + 5 || i == b + 6 || i == b + 7 || i
                == b + 8);
        } else if i < 4 + f {
            assert(w[i] is Choice);
        } else {
            assert(w[i] is Choice);
        }
    }
    assert forall|i: int| 0 <= i < w.len() implies #[trigger] is_as_told(w, i) by {
        assert(place(w[i]) < 7);
    }
    assert(place(w[3]) == 0);
    assert(place(w[7 + f]) == 1);
    assert(place(w[10 + f]) == 2);
    assert(place(w[13 + f + v]) == 3);
    assert(place(w[16 + f + v]) == 4);
    assert(place(w[18 + f + v]) == 5);
    assert(place(w[19 + f + v]) == 6);
}

/// The panel of the renderer is a grid of settings, each as its label says, with both lists of
/// modes complete and in order, and two switches below it.
pub proof fn law_render_panel(
    fluid_modes: usize,
    volume_modes: usize,
    widgets: Vec<Widget>,
    i: int,
)
    requires
        call_ensures(setup_ui_render_settings, (fluid_modes, volume_modes), widgets),
    ensures
        are_as_told(widgets@),
        has_places(widgets@, 7),
        widgets@[0] matches Widget::Open(Group::Grid(name)) && name@ == "render settings"@,
        widgets@[1] == Widget::SliderWidth(170),
        0 <= i < widgets@.len() ==> {
            &&& place(widgets@[i]) == 0 ==> offers_all(
                widgets@,
                i,
                Combo::FluidRendering,
                fluid_modes as int,
            ) && widgets@[i + 2 + fluid_modes] is EndRow
            &&& place(widgets@[i]) == 2 ==> offers_all(
                widgets@,
                i,
                Combo::VolumeVisualization,
                volume_modes as int,
            ) && widgets@[i + 2 + volume_modes] is EndRow
            &&& place(widgets@[i]) == 1 || place(widgets@[i]) == 3 ==> widgets@[i + 1] is EndRow
            &&& place(widgets@[i]) == 4 ==> widgets@[i + 1] is Close && place(widgets@[i + 2]) == 5
            &&& place(widgets@[i]) == 6 ==> i + 1 == widgets@.len()
        },
{
    let w = widgets@;
    let f = fluid_modes as int;
    let v = volume_modes as int;
    assert(stand_in_render_panel(w, f, v));
    lemma_places_in_render_panel(w, f, v);
    if 0 <= i < w.len() {
        if place(w[i]) == 0 {
            assert forall|k: int| 0 <= k < f implies #[trigger] w[i + 1 + k] == (Widget::Choice {
                combo: Combo::FluidRendering,
                index: k as usize,
            }) by {}
        }
        if place(w[i]) == 2 {
            assert forall|k: int| 0 <= k < v implies #[trigger] w[i + 1 + k] == (Widget::Choice {
                combo: Combo::VolumeVisualization,
                index: k as usize,
            }) by {}
        }
    }
}

/// Whether widgets stand in a list from a place on, as a section under a title: it is opened right
/// before them, and closed right behind.
pub open spec fn is_section(
    widgets: Seq<Widget>,
    at: int,
    title: Seq<char>,
    default_open: bool,
    body: Seq<Widget>,
) -> bool {
    &&& 0 <= at
    &&& at + body.len() + 2 <= widgets.len()
    &&& widgets[at] matches Widget::Open(Group::Collapsing { title: shown, default_open: open })
        && shown@ == title && open == default_open
    &&& widgets.subrange(at + 1, at + 1 + body.len()) == body
    &&& widgets[at + 1 + body.len()] is Close
}

/// Whether the section of a profile stands in a list from a place on: the button there saves, and
/// the rows show, the data of exactly that profile.
pub open spec fn is_profiler_section(
    widgets: Seq<Widget>,
    at: int,
    title: Seq<char>,
    profile: Profile,
    levels: int,
) -> bool {
    &&& 0 <= at
    &&& at + 4 <= widgets.len()
    &&& widgets[at] matches Widget::Open(Group::Collapsing { title: shown, default_open: open })
        && shown@ == title && !open
    &&& is_button(widgets[at + 1], "Write Chrometrace"@)
    &&& widgets[at + 1] matches Widget::Button { button, .. } && button
        == Button::WriteChrometrace(profile)
    &&& widgets[at + 2] matches Widget::ProfilerRows { profile: shown, levels_default_open }
        && shown == profile && levels_default_open == levels
    &&& widgets[at + 3] is Close
}

proof fn lemma_section_stands(
    before: Seq<Widget>,
    title: &'static str,
    default_open: bool,
    body: Seq<Widget>,
    after: Seq<Widget>,
)
    ensures
        is_section(
            before + section(title, default_open, body) + after,
            before.len() as int,
            title@,
            default_open,
            body,
        ),
{
    let w = before + section(title, default_open, body) + after;
    let at = before.len() as int;
    assert(w.subrange(at + 1, at + 1 + body.len()) =~= body);
}

proof fn lemma_profiler_section_stands(
    before: Seq<Widget>,
    title: &'static str,
    profile: Profile,
    levels: i32,
    after: Seq<Widget>,
)
    ensures
        is_profiler_section(
            before + section(title, false, profiler_panel(profile, levels)) + after,
            before.len() as int,
            title@,
            profile,
            levels as int,
        ),
{
}

proof fn lemma_window(
    w: Seq<Widget>,
    timer: Seq<Widget>,
    solver: Seq<Widget>,
    binning: Seq<Widget>,
    control: Seq<Widget>,
    scene: Seq<Widget>,
    render: Seq<Widget>,
)
    requires
        binning.len() == 2,
        w == timer + section("Solver", false, solver + binning) + section(
            "Simulation Controller & Recording",
            true,
            control,
        ) + section("Scene Settings", true, scene) + section("Rendering Settings", true, render)
            + section(
            "Profiler - Single Simulation Frame",
            false,
            profiler_panel(Profile::Simulation, 2),
        ) + section("Profiler - Rendering", false, profiler_panel(Profile::Rendering, 4)),
    ensures
        ({
            let a = timer.len() as int;
            let b = a + solver.len() + 4;
            let c = b + control.len() + 2;
            let d = c + scene.len() + 2;
            let e = d + render.len() + 2;
            &&& w.len() == e + 8
            &&& w.subrange(0, a) == timer
            &&& is_section(w, a, "Solver"@, false, solver + binning)
            &&& is_section(w, b, "Simulation Controller & Recording"@, true, control)
            &&& is_section(w, c, "Scene Settings"@, true, scene)
            &&& is_section(w, d, "Rendering Settings"@, true, render)
            &&& is_profiler_section(
                w,
                e,
                "Profiler - Single Simulation Frame"@,
                Profile::Simulation,
                2,
            )
            &&& is_profiler_section(w, e + 4, "Profiler - Rendering"@, Profile::Rendering, 4)
        }),
{
    let s1 = section("Solver", false, solver + binning);
    let s2 = section("Simulation Controller & Recording", true, control);
    let s3 = section("Scene Settings", true, scene);
    let s4 = section("Rendering Settings", true, render);
    let s5 = section(
        "Profiler - Single Simulation Frame",
        false,
        profiler_panel(Profile::Simulation, 2),
    );
    let s6 = section("Profiler - Rendering", false, profiler_panel(Profile::Rendering, 4));
    assert(w.subrange(0, timer.len() as int) =~= timer);
    assert(w =~= timer + s1 + (s2 + s3 + s4 + s5 + s6));
    lemma_section_stands(timer, "Solver", false, solver + binning, s2 + s3 + s4 + s5 + s6);
    assert(w =~= (timer + s1) + s2 + (s3 + s4 + s5 + s6));
    lemma_section_stands(
        timer + s1,
        "Simulation Controller & Recording",
        true,
        control,
        s3 + s4 + s5 + s6,
    );
    assert(w =~= (timer + s1 + s2) + s3 + (s4 + s5 + s6));
    lemma_section_stands(timer + s1 + s2, "Scene Settings", true, scene, s4 + s5 + s6);
    assert(w =~= (timer + s1 + s2 + s3) + s4 + (s5 + s6));
    lemma_section_stands(timer + s1 + s2 + s3, "Rendering Settings", true, render, s5 + s6);
    lemma_profiler_section_stands(
        timer + s1 + s2 + s3 + s4,
        "Profiler - Single Simulation Frame",
        Profile::Simulation,
        2,
        s6,
    );
    assert(w =~= (timer + s1 + s2 + s3 + s4 + s5) + s6 + Seq::empty());
    lemma_profiler_section_stands(
        timer + s1 + s2 + s3 + s4 + s5,
        "Profiler - Rendering",
        Profile::Rendering,
        4,
        Seq::empty(),
    );
}

/// The window is the timer and, below it, one section for each of the other panels: that of the
/// solver and those of the profiler closed, the others open. Each panel is in the window as it is
/// on its own, for the same status and the same counts.
pub proof fn law_window_is_made_of_the_panels(
    status: SimulationControllerStatus,
    scene_count: usize,
    fluid_modes: usize,
    volume_modes: usize,
    window: Vec<Widget>,
    timer: Vec<Widget>,
    solver: Vec<Widget>,
    control: Vec<Widget>,
    scene: Vec<Widget>,
    render: Vec<Widget>,
)
    requires
        call_ensures(setup_ui, (status, scene_count, fluid_modes, volume_modes), window),
        call_ensures(setup_ui_timer, (status,), timer),
        call_ensures(setup_ui_solver, (), solver),
        call_ensures(setup_ui_simulation_control, (status,), control),
        call_ensures(setup_ui_scene_settings, (scene_count,), scene),
        call_ensures(setup_ui_render_settings, (fluid_modes, volume_modes), render),
    ensures
        ({
            let w = window@;
            let a = timer@.len() as int;
            let b = a + solver@.len() + 4;
            let c = b + control@.len() + 2;
            let d = c + scene@.len() + 2;
            let e = d + render@.len() + 2;
            &&& w.len() == e + 8
            &&& w.subrange(0, a) == timer@
            &&& is_section(w, a, "Solver"@, false, solver@ + w.subrange(b - 3, b - 1))
            &&& w[b - 3] is Separator
            &&& w[b - 2] matches Widget::Slider { quantity: Quantity::ParticleBinningFrequency, .. }
            &&& is_as_told(w, b - 2)
            &&& is_section(w, b, "Simulation Controller & Recording"@, true, control@)
            &&& is_section(w, c, "Scene Settings"@, true, scene@)
            &&& is_section(w, d, "Rendering Settings"@, true, render@)
            &&& is_profiler_section(
                w,
                e,
                "Profiler - Single Simulation Frame"@,
                Profile::Simulation,
                2,
            )
            &&& is_profiler_section(w, e + 4, "Profiler - Rendering"@, Profile::Rendering, 4)
        }),
{
    let w = window@;
    let a = timer@.len() as int;
    let b = a + solver@.len() + 4;
    let binning = seq![
        Widget::Separator,
        Widget::Slider {
            quantity: Quantity::ParticleBinningFrequency,
            bounds: between(whole(0), whole(300)),
            logarithmic: false,
            text: "particle binning frequency",
        },
    ];
    lemma_window(w, timer@, solver@, binning, control@, scene@, render@);
    assert(w.subrange(b - 3, b - 1) =~= binning) by {
        let body = w.subrange(a + 1, a + 1 + (solver@ + binning).len());
        assert(body == solver@ + binning);
        assert(body[solver@.len() as int] == w[b - 3]);
        assert(body[solver@.len() as int + 1] == w[b - 2]);
    }
    assert(w.subrange(b - 3, b - 1)[0] == w[b - 3]);
    assert(w.subrange(b - 3, b - 1)[1] == w[b - 2]);
}

/// How many groups are opened among so many widgets from a place on.
pub open spec fn opened(widgets: Seq<Widget>, from: int, count: int) -> int
    decreases count,
{
    if count <= 0 {
        0
    } else {
        opened(widgets, from, count - 1) + if widgets[from + count - 1] is Open {
            1int
        } else {
            0int
        }
    }
}

/// How many groups are closed among so many widgets from a place on.
pub open spec fn closed(widgets: Seq<Widget>, from: int, count: int) -> int
    decreases count,
{
    if count <= 0 {
        0
    } else {
        closed(widgets, from, count - 1) + if widgets[from + count - 1] is Close {
            1int
        } else {
            0int
        }
    }
}

proof fn lemma_depth_is_the_difference(widgets: Seq<Widget>, from: int, count: int)
    requires
        0 <= from,
        0 <= count <= widgets.len() - from,
        depth_at(widgets.subrange(from, widgets.len() as int), count, 0) >= 0,
    ensures
        depth_at(widgets.subrange(from, widgets.len() as int), count, 0) == opened(
            widgets,
            from,
            count,
        ) - closed(widgets, from, count),
    decreases count,
{
    if count > 0 {
        let rest = widgets.subrange(from, widgets.len() as int);
        if depth_at(rest, count - 1, 0) < 0 {
            lemma_depth_stays_negative(rest, count - 1, count);
        }
        lemma_depth_is_the_difference(widgets, from, count - 1);
        assert(rest[count - 1] == widgets[from + count - 1]);
    }
}

/// The end of a group is the first place behind which more groups have been closed than opened: up
/// to there never more are closed than opened, and right before it the two are equal. A group
/// without an end has no such place.
pub proof fn law_end_of_a_group(
    widgets: &[Widget],
    open: usize,
    end: Option<usize>,
    count: int,
)
    requires
        open < widgets@.len(),
        call_ensures(group_end, (widgets, open), end),
        0 <= count < widgets@.len() - open,
    ensures
        end matches Some(close) ==> {
            &&& open < close < widgets@.len()
            &&& widgets@[close as int] is Close
            &&& opened(widgets@, open + 1, close - open - 1) == closed(
                widgets@,
                open + 1,
                close - open - 1,
            )
            &&& count < close - open ==> closed(widgets@, open + 1, count) <= opened(
                widgets@,
                open + 1,
                count,
            )
        },
        end is None ==> closed(widgets@, open + 1, count) <= opened(widgets@, open + 1, count),
{
    let rest = widgets@.subrange(open + 1, widgets@.len() as int);
    if let Some(close) = end {
        lemma_body_is_nested(widgets@, open as int, close as int);
        lemma_depth_is_the_difference(widgets@, open + 1, close - open - 1);
        if count < close - open {
            if depth_at(rest, count, 0) < 0 {
                lemma_depth_stays_negative(rest, count, close - open - 1);
            }
            lemma_depth_is_the_difference(widgets@, open + 1, count);
        }
    } else {
        let arguments = (widgets, open);
        assert forall|close: int|
            !crate::gui::panels::closes(widgets@, open as int, close) by {
            assert(!crate::gui::panels::closes(
                arguments.0@,
                arguments.1 as int,
                close,
            ));
        }
        lemma_depth_of_unclosed(widgets@, open as int, open + 1 + count);
        lemma_depth_is_the_difference(widgets@, open + 1, count);
    }
}

/// The window that is drawn is laid out for the scenes that are known.
pub proof fn law_drawn_window(
    gui: &GUI,
    status: SimulationControllerStatus,
    scene_count: usize,
    fluid_modes: usize,
    volume_modes: usize,
    drawn: Vec<Widget>,
    window: Vec<Widget>,
)
    requires
        call_ensures(GUI::draw, (gui, status, fluid_modes, volume_modes), drawn),
        scene_count == gui@.scenes.len(),
        call_ensures(setup_ui, (status, scene_count, fluid_modes, volume_modes), window),
    ensures
        drawn@ == window@,
{
}

} // verus!
