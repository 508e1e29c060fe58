use blub::events::ApplicationEvent;
use blub::gpu::{PresentMode, Resolution};
use blub::gui::panels::{
    group_end, setup_ui_recording, setup_ui_simulation_control, setup_ui_solver_config, setup_ui_timer, Bound,
    Bounds, Button, Decimal, Group, Profile, Quantity, Text, Widget,
};
use blub::gui::profiler::{header_end, setup_ui_profiler, ProfilerRow, ProfilerScope};
use blub::gui::{
    has_scene_file, list_scene_files, size_in_pixels, DirectoryEntry, GuiCommand, UiEvent, GUI,
};
use blub::paths::{has_json_extension, join, path_of_entry, strip_directory};
use blub::simulation::{
    newest_sample, SimulationControllerStatus, SolverConfig, SolverConfigs, SolverStatisticSample,
};
use std::collections::VecDeque;
use std::time::Duration;

fn entry(file_name: &str, is_file: bool) -> DirectoryEntry {
    DirectoryEntry {
        file_name: file_name.to_string(),
        is_file,
    }
}

fn entries() -> Vec<DirectoryEntry> {
    vec![
        entry("notes.txt", true),
        entry("dam.json", true),
        entry("folder.json", false),
        entry(".json", true),
        entry("wave.json", true),
    ]
}

fn click(gui: &mut GUI, button: Button) -> Option<GuiCommand> {
    gui.on_ui_event(UiEvent::Clicked {
        button,
        fast_forward_length: Duration::from_millis(2500),
    })
}

#[test]
fn scenes_are_the_json_files() {
    assert!(has_scene_file(&entries()));
    assert_eq!(list_scene_files(&entries()), vec!["scenes/dam.json", "scenes/wave.json"]);
    assert!(!has_scene_file(&vec![entry("readme.md", true), entry("x.json", false)]));
}

#[test]
fn json_extensions() {
    assert!(has_json_extension("a.json"));
    assert!(has_json_extension("a.b.json"));
    assert!(has_json_extension("..json"));
    assert!(!has_json_extension(".json"));
    assert!(!has_json_extension("json"));
    assert!(!has_json_extension("a.JSON"));
    assert!(!has_json_extension("a.json5"));
    assert!(!has_json_extension(""));
}

#[test]
fn paths_join_and_strip() {
    assert_eq!(join("scenes", "a.json"), "scenes/a.json");
    assert_eq!(join("scenes/", "a.json"), "scenes/a.json");
    assert_eq!(join("", "a.json"), "a.json");
    assert_eq!(join("scenes", "/a.json"), "/a.json");
    assert_eq!(path_of_entry("scenes", "a.json"), "scenes/a.json");
    assert_eq!(strip_directory("scenes/a.json", "scenes"), Some("a.json".to_string()));
    assert_eq!(strip_directory("scenery/a.json", "scenes"), None);
    assert_eq!(strip_directory("scenes", "scenes"), None);
    assert_eq!(strip_directory("scenesX/a", "scenes"), None);
}

#[test]
fn a_new_window_has_chosen_the_first_scene() {
    let gui = GUI::new(&entries());
    assert_eq!(gui.selected_scene(), "scenes/dam.json");
    assert_eq!(gui.known_scene(1).unwrap(), "scenes/wave.json");
    assert!(gui.known_scene(2).is_none());
    assert_eq!(gui.scene_name(1), "wave.json");
    assert_eq!(gui.selected_scene_name(), "dam.json");
    assert_eq!(gui.video_fps(), 60);
    assert!(gui.wait_for_vblank());
    assert!(!gui.show_profiling_data_simulation());
    assert!(!gui.show_profiling_data_rendering());
}

#[test]
fn a_chosen_scene_is_loaded() {
    let mut gui = GUI::new(&entries());
    match gui.on_ui_event(UiEvent::SceneChosen(1)) {
        Some(GuiCommand::Send(ApplicationEvent::LoadScene(path))) => {
            assert_eq!(path, "scenes/wave.json")
        }
        other => panic!("{:?}", other),
    }
    assert_eq!(gui.selected_scene(), "scenes/wave.json");
}

#[test]
fn the_checkbox_sets_the_present_mode() {
    let mut gui = GUI::new(&entries());
    assert!(matches!(
        gui.on_ui_event(UiEvent::VblankToggled),
        Some(GuiCommand::Send(ApplicationEvent::ChangePresentMode(PresentMode::Mailbox)))
    ));
    assert!(!gui.wait_for_vblank());
    assert!(matches!(
        gui.on_ui_event(UiEvent::VblankToggled),
        Some(GuiCommand::Send(ApplicationEvent::ChangePresentMode(PresentMode::Fifo)))
    ));
    assert!(gui.wait_for_vblank());
}

#[test]
fn buttons() {
    let mut gui = GUI::new(&entries());
    assert!(matches!(
        click(&mut gui, Button::Reset),
        Some(GuiCommand::Send(ApplicationEvent::ResetScene))
    ));
    assert!(matches!(
        click(&mut gui, Button::PauseOrResume),
        Some(GuiCommand::PauseOrResume)
    ));
    assert!(matches!(
        click(&mut gui, Button::EndRecording),
        Some(GuiCommand::PauseOrResume)
    ));
    match click(&mut gui, Button::FastForward) {
        Some(GuiCommand::Send(ApplicationEvent::FastForwardSimulation(length))) => {
            assert_eq!(length, Duration::from_millis(2500))
        }
        other => panic!("{:?}", other),
    }
    assert!(gui.on_ui_event(UiEvent::VideoFpsEdited(24)).is_none());
    assert!(matches!(
        click(&mut gui, Button::ResetAndRecord),
        Some(GuiCommand::Send(ApplicationEvent::ResetAndStartRecording { recording_fps: 24 }))
    ));
    assert!(matches!(
        click(&mut gui, Button::WriteChrometrace(Profile::Simulation)),
        Some(GuiCommand::WriteChrometrace {
            profile: Profile::Simulation,
            file: "simulation-trace.json"
        })
    ));
    assert!(matches!(
        click(&mut gui, Button::WriteChrometrace(Profile::Rendering)),
        Some(GuiCommand::WriteChrometrace {
            profile: Profile::Rendering,
            file: "rendering-trace.json"
        })
    ));
}

#[test]
fn steps_per_second_are_clamped() {
    let mut gui = GUI::new(&entries());
    for (edited, set) in [(-5, 20), (19, 20), (20, 20), (120, 120), (1200, 1200), (1201, 1200)] {
        match gui.on_ui_event(UiEvent::StepsPerSecondEdited(edited)) {
            Some(GuiCommand::SetSimulationStepsPerSecond(steps)) => assert_eq!(steps, set),
            other => panic!("{:?}", other),
        }
    }
}

#[test]
fn open_profiler_sections_are_remembered() {
    let mut gui = GUI::new(&entries());
    let open = |profile, open| UiEvent::ProfilerSection { profile, open };
    assert!(gui.on_ui_event(open(Profile::Simulation, true)).is_none());
    assert!(gui.show_profiling_data_simulation());
    assert!(!gui.show_profiling_data_rendering());
    assert!(gui.on_ui_event(open(Profile::Rendering, true)).is_none());
    assert!(gui.on_ui_event(open(Profile::Simulation, false)).is_none());
    assert!(!gui.show_profiling_data_simulation());
    assert!(gui.show_profiling_data_rendering());
}

fn scope(label: &str, time: Option<&str>, nested: Vec<ProfilerScope>) -> ProfilerScope {
    ProfilerScope {
        label: label.to_string(),
        time: time.map(|t| t.to_string()),
        nested,
    }
}

#[test]
fn profiler_rows_nest() {
    let data = vec![
        scope("alone", Some("0.100ms"), vec![]),
        scope(
            "outer",
            Some("3.000ms"),
            vec![scope("inner", None, vec![scope("leaf", Some("1.000ms"), vec![])])],
        ),
    ];
    let rows = setup_ui_profiler(&data, 1);
    assert_eq!(rows.len(), 10);
    assert!(matches!(&rows[0], ProfilerRow::Leaf { label, time } if label == "alone" && time == "0.100ms"));
    assert!(matches!(rows[1], ProfilerRow::EndRow));
    assert!(matches!(
        &rows[2],
        ProfilerRow::Open { header, id, default_open: true }
            if header == "outer  -  3.000ms" && id == "outer"
    ));
    assert!(matches!(
        &rows[3],
        ProfilerRow::Open { header, id, default_open: false }
            if header == "inner  -  —" && id == "inner"
    ));
    assert!(matches!(&rows[4], ProfilerRow::Leaf { label, .. } if label == "leaf"));
    assert!(matches!(rows[5], ProfilerRow::EndRow));
    assert!(matches!(rows[6], ProfilerRow::Close));
    assert!(matches!(rows[8], ProfilerRow::Close));
    assert!(setup_ui_profiler(&vec![], i32::MIN).is_empty());
    let deep = setup_ui_profiler(&data, i32::MIN);
    assert!(matches!(deep[2], ProfilerRow::Open { default_open: false, .. }));

    let mut gui = GUI::new(&entries());
    gui.report_profiling_data_simulation(data);
    assert_eq!(gui.profiler_rows(Profile::Simulation, 2).len(), 10);
    assert!(gui.profiler_rows(Profile::Rendering, 4).is_empty());
    gui.report_profiling_data_rendering(vec![scope("draw", None, vec![])]);
    assert_eq!(gui.profiler_rows(Profile::Rendering, 4).len(), 2);
}

fn depth(widgets: &[Widget]) -> i32 {
    let mut depth = 0;
    for widget in widgets {
        match widget {
            Widget::Open(_) => depth += 1,
            Widget::Close => depth -= 1,
            _ => {}
        }
        assert!(depth >= 0);
    }
    depth
}

#[test]
fn the_window_nests() {
    let gui = GUI::new(&entries());
    for status in [
        SimulationControllerStatus::Realtime,
        SimulationControllerStatus::RecordingWithFixedFrameLength,
        SimulationControllerStatus::Paused,
    ] {
        let widgets = gui.draw(status, 3, 5);
        assert_eq!(depth(&widgets), 0);
        let choices = widgets.iter().filter(|w| matches!(w, Widget::Choice { .. })).count();
        assert_eq!(choices, 2 + 3 + 5);
        let titles: Vec<&str> = widgets
            .iter()
            .filter_map(|w| match w {
                Widget::Open(Group::Collapsing { title, .. }) => Some(*title),
                _ => None,
            })
            .collect();
        assert_eq!(
            titles,
            vec![
                "Solver",
                "Simulation Controller & Recording",
                "Scene Settings",
                "Rendering Settings",
                "Profiler - Single Simulation Frame",
                "Profiler - Rendering",
            ]
        );
        assert_eq!(depth(&setup_ui_recording(status)), 0);
    }
}

#[test]
fn labels_follow_the_status() {
    let pause_label = |status| {
        setup_ui_simulation_control(status)
            .iter()
            .find_map(|w| match w {
                Widget::Button { button: Button::PauseOrResume, label } => Some(*label),
                _ => None,
            })
            .unwrap()
    };
    assert_eq!(pause_label(SimulationControllerStatus::Paused), "Continue  (Space)");
    assert_eq!(pause_label(SimulationControllerStatus::Realtime), "Pause  (Space)");

    let recording = SimulationControllerStatus::RecordingWithFixedFrameLength;
    assert!(setup_ui_timer(recording)
        .iter()
        .any(|w| matches!(w, Widget::Alert(Text::RecordingFps))));
    assert!(setup_ui_timer(SimulationControllerStatus::Paused)
        .iter()
        .any(|w| matches!(w, Widget::Strong(Text::RenderedTime))));
    assert!(matches!(
        setup_ui_recording(recording)[0],
        Widget::Button { button: Button::EndRecording, label: "End Recording" }
    ));
    assert!(matches!(
        setup_ui_recording(SimulationControllerStatus::Paused)[1],
        Widget::Button { button: Button::ResetAndRecord, label: "Reset & Record Video" }
    ));
}

#[test]
fn bounds_of_the_solver_settings() {
    let bounds: Vec<(Quantity, Bounds)> = setup_ui_solver_config()
        .iter()
        .filter_map(|w| match w {
            Widget::Slider { quantity, bounds, .. } => Some((*quantity, *bounds)),
            _ => None,
        })
        .collect();
    let fixed = |units, places| Bound::Fixed(Decimal { units, places });
    assert_eq!(
        bounds,
        vec![
            (Quantity::ErrorTolerance, Bounds { lower: fixed(1, 4), upper: fixed(1, 0) }),
            (Quantity::MaxIterationCount, Bounds { lower: fixed(2, 0), upper: fixed(128, 0) }),
            (
                Quantity::ErrorCheckFrequency,
                Bounds { lower: fixed(1, 0), upper: Bound::MaxIterationCount }
            ),
        ]
    );
}

#[test]
fn groups_end_where_they_are_closed() {
    let widgets = GUI::new(&entries()).draw(SimulationControllerStatus::Paused, 1, 1);
    for (open, widget) in widgets.iter().enumerate() {
        if matches!(widget, Widget::Open(_)) {
            let close = group_end(&widgets, open).unwrap();
            assert!(matches!(widgets[close], Widget::Close));
            assert_eq!(depth(&widgets[open + 1..close]), 0);
        }
    }
    let unclosed = [Widget::Open(Group::Vertical), Widget::Open(Group::Horizontal), Widget::Close];
    assert_eq!(group_end(&unclosed, 0), None);
    assert_eq!(group_end(&unclosed, 1), Some(2));

    let rows = [
        ProfilerRow::Open { header: String::new(), id: String::new(), default_open: true },
        ProfilerRow::Open { header: String::new(), id: String::new(), default_open: true },
        ProfilerRow::Close,
        ProfilerRow::EndRow,
        ProfilerRow::Close,
    ];
    assert_eq!(header_end(&rows, 0), Some(4));
    assert_eq!(header_end(&rows, 1), Some(2));
    assert_eq!(header_end(&rows[..4], 0), None);
}

#[test]
fn a_jump_is_raised_to_a_step() {
    let widgets = setup_ui_simulation_control(SimulationControllerStatus::Realtime);
    let steps: Vec<usize> = (0..widgets.len())
        .filter(|&i| {
            matches!(widgets[i], Widget::Drag { quantity: Quantity::StepsPerSecond, .. })
        })
        .collect();
    assert_eq!(steps.len(), 1);
    let jump = (0..widgets.len())
        .find(|&i| {
            matches!(widgets[i], Widget::Drag { quantity: Quantity::FastForwardLength, .. })
        })
        .unwrap();
    assert!(steps[0] < jump);
    assert!(matches!(
        widgets[jump - 1],
        Widget::RaiseTo { quantity: Quantity::FastForwardLength, bound: Bound::StepLength }
    ));
}

#[test]
fn speeds_of_dragged_numbers() {
    let speeds = |widgets: Vec<Widget>| -> Vec<(Quantity, Option<Decimal>)> {
        widgets
            .iter()
            .filter_map(|w| match w {
                Widget::Drag { quantity, speed, .. } => Some((*quantity, *speed)),
                _ => None,
            })
            .collect()
    };
    let status = SimulationControllerStatus::Paused;
    assert_eq!(speeds(setup_ui_recording(status)), vec![(Quantity::VideoFps, None)]);
    assert_eq!(
        speeds(setup_ui_simulation_control(status)),
        vec![
            (Quantity::TargetTime, Some(Decimal { units: 1, places: 1 })),
            (Quantity::StepsPerSecond, Some(Decimal { units: 10, places: 0 })),
            (Quantity::TimeScale, Some(Decimal { units: 5, places: 2 })),
            (Quantity::FastForwardLength, Some(Decimal { units: 1, places: 2 })),
        ]
    );
}

#[test]
fn no_side_of_the_drawn_area_is_empty() {
    assert_eq!(size_in_pixels(Resolution { width: 0, height: 720 }), [1, 720]);
    assert_eq!(size_in_pixels(Resolution { width: 640, height: 0 }), [640, 1]);
    assert_eq!(size_in_pixels(Resolution { width: 640, height: 480 }), [640, 480]);
}

#[test]
fn the_configuration_for_the_density_is_shared() {
    let config = |error_tolerance: f32, max_num_iterations| SolverConfig {
        error_tolerance_bits: error_tolerance.to_bits(),
        max_num_iterations,
        error_check_frequency: 4,
    };
    let configs = SolverConfigs { velocity: config(0.5, 10), density: config(0.1, 32) };
    assert_eq!(configs.shared().velocity, config(0.1, 32));
    assert_eq!(configs.shared().density, config(0.1, 32));
}

#[test]
fn the_newest_sample_is_the_last() {
    let sample = |error: f32, iteration_count| SolverStatisticSample {
        error_bits: error.to_bits(),
        iteration_count,
    };
    let mut stats = VecDeque::new();
    assert_eq!(newest_sample(&stats), sample(0.0, 0));
    stats.push_back(sample(0.5, 3));
    stats.push_back(sample(0.1, 7));
    assert_eq!(newest_sample(&stats), sample(0.1, 7));
    stats.pop_front();
    assert_eq!(newest_sample(&stats), sample(0.1, 7));
}
