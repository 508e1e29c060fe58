//! The settings window: what it remembers, and what its widgets set off.

pub mod panels;
pub mod profiler;

use crate::events::ApplicationEvent;
use crate::gpu::{PresentMode, Resolution};
use crate::gui::panels::{setup_ui, window_panel, Button, Profile, Widget};
use crate::gui::profiler::{
    row_texts, rows_of, setup_ui_profiler, ProfilerRow, ProfilerScope,
};
use crate::paths::{
    entry_path, has_json_extension, is_json_name, law_entry_path, path_of_entry, strip_directory,
    stripped,
};
use crate::screen::{at_least_one, clamp_to_one, Screen};
use crate::simulation::SimulationControllerStatus;
use std::time::Duration;
use vstd::pervasive::unreached;
use vstd::prelude::*;

verus! {

/// Where the scenes are.
pub const SCENE_DIRECTORY: &'static str = "scenes";

/// An entry of a directory.
#[derive(Debug)]
pub struct DirectoryEntry {
    pub file_name: String,
    pub is_file: bool,
}

impl DirectoryEntry {
    /// Whether the entry is a file with the extension of a scene.
    pub open spec fn is_scene(self) -> bool {
        self.is_file && is_json_name(self.file_name@)
    }

    /// The path of the entry in the directory of the scenes.
    pub open spec fn path(self) -> Seq<char> {
        entry_path(SCENE_DIRECTORY@, self.file_name@)
    }
}

/// The texts of strings.
pub open spec fn texts(strings: Seq<String>) -> Seq<Seq<char>> {
    strings.map_values(|s: String| s@)
}

/// The paths of the scenes among the first `count` entries of their directory, in the order of
/// the entries.
pub open spec fn scene_paths(entries: Seq<DirectoryEntry>, count: int) -> Seq<Seq<char>>
    decreases count,
{
    if count <= 0 {
        Seq::empty()
    } else if entries[count - 1].is_scene() {
        scene_paths(entries, count - 1).push(entries[count - 1].path())
    } else {
        scene_paths(entries, count - 1)
    }
}

/// Whether a path lies in the directory of the scenes.
pub open spec fn lies_in_scenes(path: String) -> bool {
    stripped(path@, SCENE_DIRECTORY@) is Some
}

/// Whether there is a scene among the entries.
pub open spec fn has_scene(entries: Seq<DirectoryEntry>) -> bool {
    exists|i: int| 0 <= i < entries.len() && (#[trigger] entries[i]).is_scene()
}

/// Tests whether there is a scene among the entries.
pub fn has_scene_file(entries: &Vec<DirectoryEntry>) -> (found: bool)
    ensures
        found == has_scene(entries@),
{
    let mut i: usize = 0;
    while i < entries.len()
        invariant
            i <= entries@.len(),
            forall|j: int| 0 <= j < i ==> !(#[trigger] entries@[j]).is_scene(),
        decreases entries@.len() - i,
    {
        if entries[i].is_file && has_json_extension(entries[i].file_name.as_str()) {
            assert(entries@[i as int].is_scene());
            return true;
        }
        i += 1;
    }
    false
}

/// Lists the scenes among the entries of their directory.
pub fn list_scene_files(entries: &Vec<DirectoryEntry>) -> (files: Vec<String>)
    requires
        has_scene(entries@),
    ensures
        texts(files@) == scene_paths(entries@, entries@.len() as int),
        files@.len() > 0,
        forall|i: int| 0 <= i < files@.len() ==> lies_in_scenes(#[trigger] files@[i]),
{
    let mut files: Vec<String> = Vec::new();
    let mut i: usize = 0;
    assert(texts(files@) =~= Seq::empty());
    while i < entries.len()
        invariant
            i <= entries@.len(),
            texts(files@) == scene_paths(entries@, i as int),
            files@.len() == 0 ==> forall|j: int|
                0 <= j < i ==> !(#[trigger] entries@[j]).is_scene(),
            forall|j: int| 0 <= j < files@.len() ==> lies_in_scenes(#[trigger] files@[j]),
        decreases entries@.len() - i,
    {
        if entries[i].is_file && has_json_extension(entries[i].file_name.as_str()) {
            let ghost before = files@;
            proof {
                law_entry_path(SCENE_DIRECTORY@, entries@[i as int].file_name@);
            }
            files.push(path_of_entry(SCENE_DIRECTORY, entries[i].file_name.as_str()));
            assert(texts(files@) =~= texts(before).push(entries@[i as int].path()));
        }
        i += 1;
    }
    files
}

/// What the settings window remembers.
#[verifier::ext_equal]
pub struct GuiModel {
    pub video_fps: i32,
    /// The position of the chosen scene among the known ones.
    pub selected_scene: int,
    /// The paths of the known scenes.
    pub scenes: Seq<Seq<char>>,
    pub wait_for_vblank: bool,
    pub profiling_data_rendering: Seq<ProfilerScope>,
    pub profiling_data_simulation: Seq<ProfilerScope>,
    pub show_profiling_data_rendering: bool,
    pub show_profiling_data_simulation: bool,
}

/// State of the settings window.
#[derive(Debug)]
pub struct GUIState {
    video_fps: i32,
    selected_scene_idx: usize,
    known_scene_files: Vec<String>,
    wait_for_vblank: bool,
    profiling_data_rendering: Vec<ProfilerScope>,
    profiling_data_simulation: Vec<ProfilerScope>,
    show_profiling_data_rendering: bool,
    show_profiling_data_simulation: bool,
}

impl View for GUIState {
    type V = GuiModel;

    closed spec fn view(&self) -> GuiModel {
        GuiModel {
            video_fps: self.video_fps,
            selected_scene: self.selected_scene_idx as int,
            scenes: texts(self.known_scene_files@),
            wait_for_vblank: self.wait_for_vblank,
            profiling_data_rendering: self.profiling_data_rendering@,
            profiling_data_simulation: self.profiling_data_simulation@,
            show_profiling_data_rendering: self.show_profiling_data_rendering,
            show_profiling_data_simulation: self.show_profiling_data_simulation,
        }
    }
}

/// The settings window.
#[derive(Debug)]
pub struct GUI {
    state: GUIState,
}

impl View for GUI {
    type V = GuiModel;

    closed spec fn view(&self) -> GuiModel {
        self.state@
    }
}

/// What the user did to a widget.
#[derive(Debug)]
pub enum UiEvent {
    /// A button was clicked, while a jump is set to the given length.
    Clicked { button: Button, fast_forward_length: Duration },
    /// The checkbox that waits for the vertical blank was clicked.
    VblankToggled,
    /// The frame rate of videos was set.
    VideoFpsEdited(i32),
    /// The number of simulation steps per second was set.
    StepsPerSecondEdited(i32),
    /// A scene was chosen, by its position.
    SceneChosen(usize),
    /// The section of some profiling data was drawn, open or not.
    ProfilerSection { profile: Profile, open: bool },
}

/// What an action in the window asks the rest of the application for.
#[derive(Debug)]
pub enum GuiCommand {
    /// Send the request to the application.
    Send(ApplicationEvent),
    PauseOrResume,
    SetSimulationStepsPerSecond(u64),
    /// Save profiling data in a file.
    WriteChrometrace { profile: Profile, file: &'static str },
}

/// The fewest simulation steps per second.
pub const MIN_STEPS_PER_SECOND: i32 = 20;

/// The most simulation steps per second.
pub const MAX_STEPS_PER_SECOND: i32 = 1200;

/// The number of steps that is set when `edited` was asked for.
pub open spec fn clamped_steps(edited: i32) -> int {
    if edited < MIN_STEPS_PER_SECOND {
        MIN_STEPS_PER_SECOND as int
    } else if edited > MAX_STEPS_PER_SECOND {
        MAX_STEPS_PER_SECOND as int
    } else {
        edited as int
    }
}

/// The present mode for the choice to wait for the vertical blank.
pub open spec fn present_mode_of(wait_for_vblank: bool) -> PresentMode {
    if wait_for_vblank {
        PresentMode::Fifo
    } else {
        PresentMode::Mailbox
    }
}

/// The file that profiling data is saved in.
pub open spec fn trace_file(profile: Profile) -> &'static str {
    match profile {
        Profile::Simulation => "simulation-trace.json",
        Profile::Rendering => "rendering-trace.json",
    }
}

impl GuiModel {
    /// The chosen scene is one of the known ones.
    pub open spec fn is_valid(self) -> bool {
        0 <= self.selected_scene < self.scenes.len()
    }

    /// The path of the chosen scene.
    pub open spec fn spec_selected_scene(self) -> Seq<char> {
        self.scenes[self.selected_scene]
    }

    /// What the window remembers after an action.
    pub open spec fn after(self, event: UiEvent) -> GuiModel {
        match event {
            UiEvent::VblankToggled => GuiModel { wait_for_vblank: !self.wait_for_vblank, ..self },
            UiEvent::VideoFpsEdited(fps) => GuiModel { video_fps: fps, ..self },
            UiEvent::SceneChosen(i) => GuiModel { selected_scene: i as int, ..self },
            UiEvent::ProfilerSection { profile: Profile::Simulation, open } => GuiModel {
                show_profiling_data_simulation: open,
                ..self
            },
            UiEvent::ProfilerSection { profile: Profile::Rendering, open } => GuiModel {
                show_profiling_data_rendering: open,
                ..self
            },
            _ => self,
        }
    }

    /// Whether `command` is what an action asks for.
    pub open spec fn commands(self, event: UiEvent, command: Option<GuiCommand>) -> bool {
        match event {
            UiEvent::Clicked { button, fast_forward_length } => match button {
                Button::Reset => command == Some(GuiCommand::Send(ApplicationEvent::ResetScene)),
                Button::PauseOrResume | Button::EndRecording => command == Some(
                    GuiCommand::PauseOrResume,
                ),
                Button::FastForward => command == Some(
                    GuiCommand::Send(ApplicationEvent::FastForwardSimulation(fast_forward_length)),
                ),
                Button::ResetAndRecord => command == Some(
                    GuiCommand::Send(
                        ApplicationEvent::ResetAndStartRecording { recording_fps: self.video_fps },
                    ),
                ),
                Button::WriteChrometrace(profile) => command == Some(
                    GuiCommand::WriteChrometrace { profile, file: trace_file(profile) },
                ),
            },
            UiEvent::VblankToggled => command == Some(
                GuiCommand::Send(
                    ApplicationEvent::ChangePresentMode(present_mode_of(!self.wait_for_vblank)),
                ),
            ),
            UiEvent::StepsPerSecondEdited(edited) => command == Some(
                GuiCommand::SetSimulationStepsPerSecond(clamped_steps(edited) as u64),
            ),
            UiEvent::SceneChosen(i) => command matches Some(
                GuiCommand::Send(ApplicationEvent::LoadScene(path)),
            ) && path@ == self.scenes[i as int],
            UiEvent::VideoFpsEdited(_) | UiEvent::ProfilerSection { .. } => command is None,
        }
    }
}

impl GUIState {
    /// The chosen scene is one of the known ones, and those lie in the directory of the scenes.
    #[verifier::type_invariant]
    spec fn selection_is_known(self) -> bool {
        &&& self.selected_scene_idx < self.known_scene_files@.len()
        &&& forall|i: int|
            0 <= i < self.known_scene_files@.len() ==> lies_in_scenes(
                #[trigger] self.known_scene_files@[i],
            )
    }
}

impl GUI {
    /// A window that knows the scenes among the entries of their directory and has chosen the
    /// first.
    pub fn new(entries: &Vec<DirectoryEntry>) -> (gui: GUI)
        requires
            has_scene(entries@),
        ensures
            gui@.is_valid(),
            gui@ == (GuiModel {
                video_fps: 60,
                selected_scene: 0,
                scenes: scene_paths(entries@, entries@.len() as int),
                wait_for_vblank: Screen::DEFAULT_PRESENT_MODE == PresentMode::Fifo,
                profiling_data_rendering: Seq::empty(),
                profiling_data_simulation: Seq::empty(),
                show_profiling_data_rendering: false,
                show_profiling_data_simulation: false,
            }),
    {
        GUI {
            state: GUIState {
                video_fps: 60,
                selected_scene_idx: 0,
                known_scene_files: list_scene_files(entries),
                wait_for_vblank: Screen::DEFAULT_PRESENT_MODE == PresentMode::Fifo,
                profiling_data_rendering: Vec::new(),
                profiling_data_simulation: Vec::new(),
                show_profiling_data_rendering: false,
                show_profiling_data_simulation: false,
            },
        }
    }

    /// The path of the chosen scene.
    pub fn selected_scene(&self) -> (path: &String)
        ensures
            self@.is_valid(),
            path@ == self@.spec_selected_scene(),
    {
        proof {
            use_type_invariant(&self.state);
        }
        &self.state.known_scene_files[self.state.selected_scene_idx]
    }

    /// The path of a known scene.
    pub fn known_scene(&self, index: usize) -> (path: Option<&String>)
        ensures
            match path {
                Some(path) => index < self@.scenes.len() && path@ == self@.scenes[index as int],
                None => index >= self@.scenes.len(),
            },
    {
        if index < self.state.known_scene_files.len() {
            Some(&self.state.known_scene_files[index])
        } else {
            None
        }
    }

    /// What a known scene is listed as: its path below the directory of the scenes.
    pub fn scene_name(&self, index: usize) -> (name: String)
        requires
            index < self@.scenes.len(),
        ensures
            stripped(self@.scenes[index as int], SCENE_DIRECTORY@) == Some(name@),
    {
        proof {
            use_type_invariant(&self.state);
            assert(lies_in_scenes(self.state.known_scene_files@[index as int]));
        }
        match strip_directory(self.state.known_scene_files[index].as_str(), SCENE_DIRECTORY) {
            Some(name) => name,
            None => unreached(),
        }
    }

    /// What the chosen scene is listed as.
    pub fn selected_scene_name(&self) -> (name: String)
        ensures
            self@.is_valid(),
            stripped(self@.spec_selected_scene(), SCENE_DIRECTORY@) == Some(name@),
    {
        proof {
            use_type_invariant(&self.state);
        }
        self.scene_name(self.state.selected_scene_idx)
    }

    /// Whether frames wait for the vertical blank.
    pub fn wait_for_vblank(&self) -> (wait: bool)
        ensures
            wait == self@.wait_for_vblank,
    {
        self.state.wait_for_vblank
    }

    /// The frame rate of videos.
    pub fn video_fps(&self) -> (fps: i32)
        ensures
            fps == self@.video_fps,
    {
        self.state.video_fps
    }

    /// Lays out the whole window.
    pub fn draw(
        &self,
        status: SimulationControllerStatus,
        fluid_modes: usize,
        volume_modes: usize,
    ) -> (widgets: Vec<Widget>)
        ensures
            widgets@ == window_panel(
                status,
                self@.scenes.len(),
                fluid_modes as nat,
                volume_modes as nat,
            ),
    {
        setup_ui(status, self.state.known_scene_files.len(), fluid_modes, volume_modes)
    }

    /// Lays out profiling data.
    pub fn profiler_rows(&self, profile: Profile, levels_default_open: i32) -> (rows: Vec<
        ProfilerRow,
    >)
        ensures
            ({
                let data = match profile {
                    Profile::Simulation => self@.profiling_data_simulation,
                    Profile::Rendering => self@.profiling_data_rendering,
                };
                row_texts(rows@) == rows_of(data, levels_default_open as int, data.len())
            }),
    {
        match profile {
            Profile::Simulation => setup_ui_profiler(
                &self.state.profiling_data_simulation,
                levels_default_open,
            ),
            Profile::Rendering => setup_ui_profiler(
                &self.state.profiling_data_rendering,
                levels_default_open,
            ),
        }
    }

    /// Takes an action in the window in, and returns what it asks the application for.
    pub fn on_ui_event(&mut self, event: UiEvent) -> (command: Option<GuiCommand>)
        requires
            event matches UiEvent::SceneChosen(i) ==> i < old(self)@.scenes.len(),
        ensures
            final(self)@ == old(self)@.after(event),
            final(self)@.is_valid(),
            old(self)@.commands(event, command),
    {
        proof {
            use_type_invariant(&self.state);
        }
        match event {
            UiEvent::Clicked { button, fast_forward_length } => match button {
                Button::Reset => Some(GuiCommand::Send(ApplicationEvent::ResetScene)),
                Button::PauseOrResume | Button::EndRecording => Some(GuiCommand::PauseOrResume),
                Button::FastForward => Some(
                    GuiCommand::Send(ApplicationEvent::FastForwardSimulation(fast_forward_length)),
                ),
                Button::ResetAndRecord => Some(
                    GuiCommand::Send(
                        ApplicationEvent::ResetAndStartRecording {
                            recording_fps: self.state.video_fps,
                        },
                    ),
                ),
                Button::WriteChrometrace(profile) => Some(
                    GuiCommand::WriteChrometrace {
                        profile,
                        file: match profile {
                            Profile::Simulation => "simulation-trace.json",
                            Profile::Rendering => "rendering-trace.json",
                        },
                    },
                ),
            },
            UiEvent::VblankToggled => {
                self.state.wait_for_vblank = !self.state.wait_for_vblank;
                let present_mode = if self.state.wait_for_vblank {
                    PresentMode::Fifo
                } else {
                    PresentMode::Mailbox
                };
                Some(GuiCommand::Send(ApplicationEvent::ChangePresentMode(present_mode)))
            },
            UiEvent::VideoFpsEdited(fps) => {
                self.state.video_fps = fps;
                None
            },
            UiEvent::StepsPerSecondEdited(edited) => {
                let steps: i32 = if edited < MIN_STEPS_PER_SECOND {
                    MIN_STEPS_PER_SECOND
                } else if edited > MAX_STEPS_PER_SECOND {
                    MAX_STEPS_PER_SECOND
                } else {
                    edited
                };
                Some(GuiCommand::SetSimulationStepsPerSecond(steps as u64))
            },
            UiEvent::SceneChosen(i) => {
                self.state.selected_scene_idx = i;
                Some(
                    GuiCommand::Send(
                        ApplicationEvent::LoadScene(self.state.known_scene_files[i].clone()),
                    ),
                )
            },
            UiEvent::ProfilerSection { profile, open } => {
                match profile {
                    Profile::Simulation => {
                        self.state.show_profiling_data_simulation = open;
                    },
                    Profile::Rendering => {
                        self.state.show_profiling_data_rendering = open;
                    },
                }
                None
            },
        }
    }

    /// Replaces the profiling data of the rendering.
    pub fn report_profiling_data_rendering(&mut self, profiling_data_rendering: Vec<ProfilerScope>)
        ensures
            final(self)@ == (GuiModel {
                profiling_data_rendering: profiling_data_rendering@,
                ..old(self)@
            }),
    {
        proof {
            use_type_invariant(&self.state);
        }
        self.state.profiling_data_rendering = profiling_data_rendering;
    }

    /// Replaces the profiling data of the simulation.
    pub fn report_profiling_data_simulation(
        &mut self,
        profiling_data_simulation: Vec<ProfilerScope>,
    )
        ensures
            final(self)@ == (GuiModel {
                profiling_data_simulation: profiling_data_simulation@,
                ..old(self)@
            }),
    {
        proof {
            use_type_invariant(&self.state);
        }
        self.state.profiling_data_simulation = profiling_data_simulation;
    }

    /// Whether profiling data of the simulation is being looked at.
    pub fn show_profiling_data_simulation(&self) -> (show: bool)
        ensures
            show == self@.show_profiling_data_simulation,
    {
        self.state.show_profiling_data_simulation
    }

    /// Whether profiling data of the rendering is being looked at.
    pub fn show_profiling_data_rendering(&self) -> (show: bool)
        ensures
            show == self@.show_profiling_data_rendering,
    {
        self.state.show_profiling_data_rendering
    }
}

/// The size of the area that the window is drawn to, in pixels: no side is empty.
pub fn size_in_pixels(size: Resolution) -> (pixels: [u32; 2])
    ensures
        pixels@[0] == at_least_one(size.width),
        pixels@[1] == at_least_one(size.height),
{
    [clamp_to_one(size.width), clamp_to_one(size.height)]
}

impl GuiModel {
    /// Whether an action can happen: only a known scene can be chosen.
    pub open spec fn allows(self, event: UiEvent) -> bool {
        event matches UiEvent::SceneChosen(i) ==> i < self.scenes.len()
    }

    /// What the window remembers after a run of actions, first action first.
    pub open spec fn after_all(self, events: Seq<UiEvent>) -> GuiModel
        decreases events.len(),
    {
        if events.len() == 0 {
            self
        } else {
            self.after_all(events.drop_last()).after(events.last())
        }
    }
}

/// Whatever the user does, the known scenes stay and the chosen one is among them, and no action
/// touches the profiling data.
pub proof fn law_selection_stays_known(gui: GuiModel, events: Seq<UiEvent>)
    requires
        gui.is_valid(),
        forall|i: int| 0 <= i < events.len() ==> gui.allows(#[trigger] events[i]),
    ensures
        gui.after_all(events).is_valid(),
        gui.after_all(events).scenes == gui.scenes,
        gui.after_all(events).profiling_data_rendering == gui.profiling_data_rendering,
        gui.after_all(events).profiling_data_simulation == gui.profiling_data_simulation,
    decreases events.len(),
{
    if events.len() > 0 {
        let fewer = events.drop_last();
        assert forall|i: int| 0 <= i < fewer.len() implies gui.allows(#[trigger] fewer[i]) by {
            assert(fewer[i] == events[i]);
        }
        law_selection_stays_known(gui, fewer);
        assert(gui.allows(events[events.len() - 1]));
    }
}

/// The scene that a choice asks to load is the one that is chosen afterwards.
pub proof fn law_chosen_scene_is_loaded(gui: GuiModel, index: usize, command: Option<GuiCommand>)
    requires
        index < gui.scenes.len(),
        gui.commands(UiEvent::SceneChosen(index), command),
    ensures
        command matches Some(GuiCommand::Send(ApplicationEvent::LoadScene(path))) && path@
            == gui.after(UiEvent::SceneChosen(index)).spec_selected_scene(),
{
}

/// The checkbox and the present mode that is asked for agree after every click, and two clicks
/// undo each other.
pub proof fn law_vblank_toggle(gui: GuiModel, command: Option<GuiCommand>)
    requires
        gui.commands(UiEvent::VblankToggled, command),
    ensures
        command == Some(
            GuiCommand::Send(
                ApplicationEvent::ChangePresentMode(
                    present_mode_of(gui.after(UiEvent::VblankToggled).wait_for_vblank),
                ),
            ),
        ),
        gui.after(UiEvent::VblankToggled).after(UiEvent::VblankToggled) == gui,
{
}

/// The number of steps that is set lies within its limits, and is what was asked for where that
/// does.
pub proof fn law_steps_are_clamped(edited: i32)
    ensures
        MIN_STEPS_PER_SECOND <= clamped_steps(edited) <= MAX_STEPS_PER_SECOND,
        MIN_STEPS_PER_SECOND <= edited <= MAX_STEPS_PER_SECOND ==> clamped_steps(edited) == edited,
{
}

/// A scene of the directory is listed as its file name.
pub proof fn law_scene_is_listed_by_its_name(entry: DirectoryEntry)
    ensures
        stripped(entry.path(), SCENE_DIRECTORY@) == Some(entry.file_name@),
{
    law_entry_path(SCENE_DIRECTORY@, entry.file_name@);
}

/// Every known scene of a new window is a file of the directory with the extension of a scene,
/// and every such file is known.
pub proof fn law_scenes_are_the_json_files(entries: Seq<DirectoryEntry>, count: int, path: Seq<char>)
    requires
        0 <= count <= entries.len(),
    ensures
        scene_paths(entries, count).contains(path) <==> exists|i: int|
            0 <= i < count && (#[trigger] entries[i]).is_scene() && entries[i].path() == path,
    decreases count,
{
    if count > 0 {
        law_scenes_are_the_json_files(entries, count - 1, path);
        let before = scene_paths(entries, count - 1);
        let last = entries[count - 1];
        if last.is_scene() {
            let after = before.push(last.path());
            assert(after[before.len() as int] == last.path());
            if before.contains(path) {
                let k = choose|k: int| 0 <= k < before.len() && before[k] == path;
                assert(after[k] == path);
            }
            if after.contains(path) {
                let k = choose|k: int| 0 <= k < after.len() && after[k] == path;
                if k < before.len() {
                    assert(before[k] == path);
                }
            }
        }
    }
}

} // verus!
