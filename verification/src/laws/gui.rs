//! The settings window: what each action changes, what it asks for, and which scenes there are.

use crate::events::ApplicationEvent;
use crate::gpu::{PresentMode, Resolution};
use crate::gui::panels::{Button, Profile};
use crate::gui::profiler::{setup_ui_profiler, ProfilerRow, ProfilerScope};
use crate::gui::{
    has_scene_file, list_scene_files, scene_paths, size_in_pixels, texts, DirectoryEntry,
    GuiCommand, GuiModel, UiEvent, GUI,
};
use crate::simulation::{newest_sample, SolverConfigs, SolverStatisticSample};
use std::collections::VecDeque;
use std::time::Duration;
use vstd::prelude::*;

verus! {

/// Whether an action in a window asks for this.
pub open spec fn asks(gui: &mut GUI, event: UiEvent, command: Option<GuiCommand>) -> bool {
    call_ensures(GUI::on_ui_event, (gui, event), command)
}

/// Whether two states of the window differ in the choice of a scene and in nothing else that is
/// shown or recorded.
pub open spec fn same_but_for_scene(a: GuiModel, b: GuiModel) -> bool {
    &&& a.scenes == b.scenes
    &&& a.video_fps == b.video_fps
    &&& a.wait_for_vblank == b.wait_for_vblank
    &&& a.profiling_data_rendering == b.profiling_data_rendering
    &&& a.profiling_data_simulation == b.profiling_data_simulation
    &&& a.show_profiling_data_rendering == b.show_profiling_data_rendering
    &&& a.show_profiling_data_simulation == b.show_profiling_data_simulation
}

/// A click on a button changes nothing in the window, and asks for what the button is for: a
/// recording with the frame rate that is set, a jump of the length that is set, a file with the
/// data of the profile.
pub proof fn law_clicks()
    ensures
        forall|gui: &mut GUI, button: Button, length: Duration, command: Option<GuiCommand>|
            #[trigger]
            asks(gui, UiEvent::Clicked { button, fast_forward_length: length }, command) ==> {
                &&& final(gui)@ == gui@
                &&& button == Button::Reset <==> command == Some(
                    GuiCommand::Send(ApplicationEvent::ResetScene),
                )
                &&& button == Button::FastForward <==> command == Some(
                    GuiCommand::Send(ApplicationEvent::FastForwardSimulation(length)),
                )
                &&& button == Button::ResetAndRecord <==> command == Some(
                    GuiCommand::Send(
                        ApplicationEvent::ResetAndStartRecording { recording_fps: gui@.video_fps },
                    ),
                )
                &&& button == Button::PauseOrResume || button == Button::EndRecording <==> command
                    == Some(GuiCommand::PauseOrResume)
                &&& button matches Button::WriteChrometrace(profile) ==> command matches Some(
                    GuiCommand::WriteChrometrace { profile: saved, file },
                ) && saved == profile && file@ == match profile {
                    Profile::Simulation => "simulation-trace.json"@,
                    Profile::Rendering => "rendering-trace.json"@,
                }
            },
{
}

/// The frame rate that is edited is the one that the window has afterwards, so the one that is
/// recorded with; nothing else changes and nothing is asked for.
pub proof fn law_edited_frame_rate_is_kept()
    ensures
        forall|gui: &mut GUI, fps: i32, command: Option<GuiCommand>| #[trigger]
            asks(gui, UiEvent::VideoFpsEdited(fps), command) ==> {
                &&& command is None
                &&& final(gui)@.video_fps == fps
                &&& final(gui)@.selected_scene == gui@.selected_scene
                &&& same_but_for_scene(final(gui)@, GuiModel { video_fps: fps, ..gui@ })
            },
        forall|gui: &mut GUI, event: UiEvent, command: Option<GuiCommand>| #[trigger]
            asks(gui, event, command) && !(event is VideoFpsEdited) ==> final(gui)@.video_fps
                == gui@.video_fps,
{
}

/// A toggle of the vertical blank, and nothing else, turns the choice over. The present mode that
/// is asked for is that of the new choice: one that waits if it waits.
pub proof fn law_toggled_vblank()
    ensures
        forall|gui: &mut GUI, command: Option<GuiCommand>| #[trigger]
            asks(gui, UiEvent::VblankToggled, command) ==> {
                &&& final(gui)@.wait_for_vblank == !gui@.wait_for_vblank
                &&& final(gui)@.selected_scene == gui@.selected_scene
                &&& same_but_for_scene(
                    final(gui)@,
                    GuiModel { wait_for_vblank: !gui@.wait_for_vblank, ..gui@ },
                )
                &&& command == Some(
                    GuiCommand::Send(
                        ApplicationEvent::ChangePresentMode(
                            if final(gui)@.wait_for_vblank {
                                PresentMode::Fifo
                            } else {
                                PresentMode::Mailbox
                            },
                        ),
                    ),
                )
            },
        forall|gui: &mut GUI, event: UiEvent, command: Option<GuiCommand>| #[trigger]
            asks(gui, event, command) && event != UiEvent::VblankToggled
                ==> final(gui)@.wait_for_vblank == gui@.wait_for_vblank,
{
}

/// The steps per second that are set are those between 20 and 1200 that are nearest to what was
/// asked for.
pub proof fn law_set_steps_per_second(other: int)
    requires
        20 <= other <= 1200,
    ensures
        forall|gui: &mut GUI, edited: i32, command: Option<GuiCommand>| #[trigger]
            asks(gui, UiEvent::StepsPerSecondEdited(edited), command) ==> {
                &&& final(gui)@ == gui@
                &&& command matches Some(GuiCommand::SetSimulationStepsPerSecond(steps)) && {
                    &&& 20 <= steps <= 1200
                    &&& 20 <= edited <= 1200 ==> steps == edited
                    &&& edited <= steps ==> steps == edited || steps <= other
                    &&& steps <= edited ==> steps == edited || other <= steps
                }
            },
{
}

/// The scene that is chosen is the one at the position, and that is the one that is loaded. Nothing
/// else changes, and no other action changes the choice.
pub proof fn law_chosen_scene()
    ensures
        forall|gui: &mut GUI, index: usize, command: Option<GuiCommand>| #[trigger]
            asks(gui, UiEvent::SceneChosen(index), command) ==> {
                &&& final(gui)@.selected_scene == index
                &&& same_but_for_scene(final(gui)@, gui@)
                &&& command matches Some(GuiCommand::Send(ApplicationEvent::LoadScene(path)))
                    && path@ == gui@.scenes[index as int]
            },
        forall|gui: &mut GUI, event: UiEvent, command: Option<GuiCommand>| #[trigger]
            asks(gui, event, command) ==> {
                &&& final(gui)@.scenes == gui@.scenes
                &&& 0 <= final(gui)@.selected_scene < gui@.scenes.len()
                &&& !(event is SceneChosen) ==> final(gui)@.selected_scene == gui@.selected_scene
            },
{
}

/// What is known of a section that was drawn: the one of a profile tells whether that profile is
/// looked at, and nothing else.
pub proof fn law_drawn_profiler_section()
    ensures
        forall|gui: &mut GUI, profile: Profile, open: bool, command: Option<GuiCommand>| #[trigger]
            asks(gui, UiEvent::ProfilerSection { profile, open }, command) ==> {
                let after = final(gui)@;
                &&& command is None
                &&& after.selected_scene == gui@.selected_scene
                &&& profile == Profile::Simulation ==> same_but_for_scene(
                    after,
                    GuiModel { show_profiling_data_simulation: open, ..gui@ },
                )
                &&& profile == Profile::Rendering ==> same_but_for_scene(
                    after,
                    GuiModel { show_profiling_data_rendering: open, ..gui@ },
                )
            },
{
}

/// Reported data replaces that of its own profile whole, and changes nothing else.
pub proof fn law_reported_profiling_data()
    ensures
        forall|gui: &mut GUI, data: Vec<ProfilerScope>| #[trigger]
            call_ensures(GUI::report_profiling_data_rendering, (gui, data), ()) ==> {
                &&& final(gui)@.selected_scene == gui@.selected_scene
                &&& same_but_for_scene(
                    final(gui)@,
                    GuiModel { profiling_data_rendering: data@, ..gui@ },
                )
            },
        forall|gui: &mut GUI, data: Vec<ProfilerScope>| #[trigger]
            call_ensures(GUI::report_profiling_data_simulation, (gui, data), ()) ==> {
                &&& final(gui)@.selected_scene == gui@.selected_scene
                &&& same_but_for_scene(
                    final(gui)@,
                    GuiModel { profiling_data_simulation: data@, ..gui@ },
                )
            },
{
}

/// The window tells what it remembers.
pub proof fn law_window_tells_what_it_remembers(
    gui: &GUI,
    wait: bool,
    fps: i32,
    simulation: bool,
    rendering: bool,
    selected: &String,
    index: usize,
    known: Option<&String>,
)
    requires
        call_ensures(GUI::wait_for_vblank, (gui,), wait),
        call_ensures(GUI::video_fps, (gui,), fps),
        call_ensures(GUI::show_profiling_data_simulation, (gui,), simulation),
        call_ensures(GUI::show_profiling_data_rendering, (gui,), rendering),
        call_ensures(GUI::selected_scene, (gui,), selected),
        call_ensures(GUI::known_scene, (gui, index), known),
    ensures
        wait == gui@.wait_for_vblank,
        fps == gui@.video_fps,
        simulation == gui@.show_profiling_data_simulation,
        rendering == gui@.show_profiling_data_rendering,
        known is Some <==> index < gui@.scenes.len(),
        known matches Some(path) ==> path@ == gui@.scenes[index as int],
        index == gui@.selected_scene ==> known is Some && (known->0)@ == selected@,
{
}

/// A scene is listed as what stands behind the directory and the slash in its path, and the chosen
/// one under the same name as in the list.
pub proof fn law_names_of_scenes(gui: &GUI, index: usize, name: String, selected: String)
    requires
        index < gui@.scenes.len(),
        call_ensures(GUI::scene_name, (gui, index), name),
        call_ensures(GUI::selected_scene_name, (gui,), selected),
    ensures
        gui@.scenes[index as int] == seq!['s', 'c', 'e', 'n', 'e', 's', '/'] + name@,
        index == gui@.selected_scene ==> selected@ == name@,
{
    reveal_strlit("scenes");
    let arguments = (gui, index);
    assert(crate::paths::stripped(arguments.0@.scenes[arguments.1 as int], "scenes"@) == Some(
        name@,
    ));
    let path = gui@.scenes[index as int];
    assert("scenes"@ =~= seq!['s', 'c', 'e', 'n', 'e', 's']);
    assert(path =~= seq!['s', 'c', 'e', 'n', 'e', 's', '/'] + name@);
}

/// Whether an entry of the directory is a file whose name is some text followed by a dot and
/// `json`.
pub open spec fn is_json_file(entry: DirectoryEntry) -> bool {
    let name = entry.file_name@;
    &&& entry.is_file
    &&& name.len() > 5
    &&& name.skip(name.len() - 5) == seq!['.', 'j', 's', 'o', 'n']
}

/// The positions of the scenes among the first entries.
spec fn positions(entries: Seq<DirectoryEntry>, count: int) -> Seq<int>
    decreases count,
{
    if count <= 0 {
        Seq::empty()
    } else if is_json_file(entries[count - 1]) {
        positions(entries, count - 1).push(count - 1)
    } else {
        positions(entries, count - 1)
    }
}

/// Whether paths are those of exactly the scenes among the first entries of the directory, which
/// are at these positions, in the order of the entries.
pub open spec fn are_the_scenes(
    entries: Seq<DirectoryEntry>,
    count: int,
    at: Seq<int>,
    paths: Seq<Seq<char>>,
) -> bool {
    &&& at.len() == paths.len()
    &&& forall|k: int|
        0 <= k < at.len() ==> 0 <= #[trigger] at[k] < count && is_json_file(entries[at[k]])
            && paths[k] == seq!['s', 'c', 'e', 'n', 'e', 's', '/'] + entries[at[k]].file_name@
    &&& forall|k: int, l: int|
        #![trigger at[k], at[l]]
        0 <= k < l < at.len() ==> at[k] < at[l]
    &&& forall|i: int|
        0 <= i < count && is_json_file(#[trigger] entries[i]) ==> at.contains(i)
}

proof fn lemma_json_file(entry: DirectoryEntry)
    ensures
        entry.is_scene() <==> is_json_file(entry),
        entry.path() == seq!['s', 'c', 'e', 'n', 'e', 's', '/'] + entry.file_name@,
{
    let name = entry.file_name@;
    reveal_strlit("scenes");
    assert(entry.path() =~= seq!['s', 'c', 'e', 'n', 'e', 's', '/'] + name);
    if name.len() > 5 {
        assert(name.skip(name.len() - 5) =~= name.subrange(name.len() - 5, name.len() as int));
    }
}

proof fn lemma_scenes(entries: Seq<DirectoryEntry>, count: int)
    requires
        0 <= count <= entries.len(),
    ensures
        are_the_scenes(entries, count, positions(entries, count), scene_paths(entries, count)),
    decreases count,
{
    if count > 0 {
        lemma_scenes(entries, count - 1);
        lemma_json_file(entries[count - 1]);
        let before = positions(entries, count - 1);
        let at = positions(entries, count);
        assert forall|i: int|
            0 <= i < count && is_json_file(#[trigger] entries[i]) implies at.contains(i) by {
            if i < count - 1 {
                let k = choose|k: int| 0 <= k < before.len() && before[k] == i;
                assert(at[k] == i);
            } else {
                assert(at[at.len() - 1] == i);
            }
        }
    }
}

/// The scenes that are listed are exactly the files of the directory with the extension, each once
/// and in the order of the directory. There is one to be found exactly if there is such a file.
pub proof fn law_listed_scenes(entries: &Vec<DirectoryEntry>, files: Vec<String>, found: bool)
    requires
        call_ensures(list_scene_files, (entries,), files),
        call_ensures(has_scene_file, (entries,), found),
    ensures
        exists|at: Seq<int>| #[trigger]
            are_the_scenes(entries@, entries@.len() as int, at, texts(files@)),
        texts(files@).len() == files@.len(),
        forall|k: int| 0 <= k < files@.len() ==> #[trigger] texts(files@)[k] == files@[k]@,
        found <==> exists|i: int| 0 <= i < entries@.len() && is_json_file(#[trigger] entries@[i]),
{
    lemma_scenes(entries@, entries@.len() as int);
    assert forall|i: int| 0 <= i < entries@.len() implies (#[trigger] entries@[i]).is_scene()
        == is_json_file(entries@[i]) by {
        lemma_json_file(entries@[i]);
    }
    assert(found == crate::gui::has_scene(entries@));
    if exists|i: int| 0 <= i < entries@.len() && is_json_file(#[trigger] entries@[i]) {
        let i = choose|i: int| 0 <= i < entries@.len() && is_json_file(#[trigger] entries@[i]);
        assert(entries@[i].is_scene());
    }
}

/// A new window knows exactly the scenes that are listed, has chosen the first of them, waits for
/// the vertical blank, records sixty frames a second, and shows no profiling data.
pub proof fn law_new_window(entries: &Vec<DirectoryEntry>, gui: GUI, files: Vec<String>)
    requires
        call_ensures(GUI::new, (entries,), gui),
        call_ensures(list_scene_files, (entries,), files),
    ensures
        gui@.scenes.len() == files@.len(),
        forall|k: int| 0 <= k < files@.len() ==> #[trigger] gui@.scenes[k] == files@[k]@,
        files@.len() > 0,
        gui@.selected_scene == 0,
        gui@.wait_for_vblank,
        gui@.video_fps == 60,
        gui@.profiling_data_rendering.len() == 0,
        gui@.profiling_data_simulation.len() == 0,
        !gui@.show_profiling_data_rendering,
        !gui@.show_profiling_data_simulation,
{
    assert(gui@.scenes == texts(files@));
}

/// The rows of a profile are those of its own data.
pub proof fn law_rows_of_a_profile(
    gui: &GUI,
    profile: Profile,
    levels: i32,
    rows: Vec<ProfilerRow>,
    data: &Vec<ProfilerScope>,
    direct: Vec<ProfilerRow>,
)
    requires
        data@ == match profile {
            Profile::Simulation => gui@.profiling_data_simulation,
            Profile::Rendering => gui@.profiling_data_rendering,
        },
        call_ensures(GUI::profiler_rows, (gui, profile, levels), rows),
        call_ensures(setup_ui_profiler, (data, levels), direct),
    ensures
        crate::gui::profiler::row_texts(rows@) == crate::gui::profiler::row_texts(direct@),
{
}

/// The area that the window is drawn to has the size of the screen, and no empty side.
pub proof fn law_drawn_area(size: Resolution, pixels: [u32; 2])
    requires
        call_ensures(size_in_pixels, (size,), pixels),
    ensures
        pixels@[0] >= 1,
        pixels@[1] >= 1,
        size.width >= 1 ==> pixels@[0] == size.width,
        size.height >= 1 ==> pixels@[1] == size.height,
        size.width == 0 ==> pixels@[0] == 1,
        size.height == 0 ==> pixels@[1] == 1,
{
}

/// The newest sample is the last one, whatever came before; without any it is zero.
pub proof fn law_newest_sample(
    stats: &VecDeque<SolverStatisticSample>,
    sample: SolverStatisticSample,
)
    requires
        call_ensures(newest_sample, (stats,), sample),
    ensures
        stats@.len() > 0 ==> sample == stats@[stats@.len() - 1],
        stats@.len() == 0 ==> sample.error_bits == 0 && sample.iteration_count == 0,
{
}

/// Both solvers share the configuration of the one by the density, and sharing it again changes
/// nothing.
pub proof fn law_shared_configuration(
    configs: SolverConfigs,
    shared: SolverConfigs,
    again: SolverConfigs,
)
    requires
        call_ensures(SolverConfigs::shared, (configs,), shared),
        call_ensures(SolverConfigs::shared, (shared,), again),
    ensures
        shared.velocity == configs.density,
        shared.density == configs.density,
        again == shared,
{
}

} // verus!
