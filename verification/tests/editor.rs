use rdr_compose::compose::ComposeFile;
use rdr_compose::editor::Editor;
use rdr_compose::model::{Executable, ExecutableType, PythonEnvironment};

fn compose() -> ComposeFile {
    ComposeFile {
        version: "0.1".to_string(),
        conda_path: "/opt/conda/bin/conda".to_string(),
        links: vec![(100, 201)],
        executables: vec![Executable::default(), Executable::default()],
    }
}

fn loaded() -> Editor {
    let mut e = Editor::new();
    e.load(compose(), Some(vec!["/envs/a".to_string()]));
    e
}

#[test]
fn new_editor_has_nothing_loaded() {
    let e = Editor::new();
    assert_eq!(e.compose_path, "/home/shiroki/code/rdr-rs/rdr-compose/test.toml");
    assert_eq!(e.python_test_result, "<-点击左侧按钮进行测试");
    assert!(e.compose.is_none());
    assert!(e.conda_envs.is_none());
    assert!(e.selected_executable.is_none());
    assert!(!e.giving_up);
}

#[test]
fn giving_up_unloads_at_the_next_frame() {
    let mut e = loaded();
    e.select(1);
    e.give_up();
    assert!(e.compose.is_some());
    e.begin_frame();
    assert!(e.compose.is_none());
    assert!(!e.giving_up);
    assert!(e.selected_executable.is_none());
}

#[test]
fn stale_selection_is_dropped() {
    let mut e = loaded();
    e.select(1);
    e.begin_frame();
    assert_eq!(e.selected_executable, Some(1));
    assert!(e.selection_is_valid());
    assert_eq!(e.property_panel_target(), Some(1));
    e.remove_selected_executable();
    assert_eq!(e.compose.as_ref().unwrap().executables.len(), 1);
    assert_eq!(e.selected_executable, Some(1));
    assert!(!e.selection_is_valid());
    e.begin_frame();
    assert!(e.selection_is_valid());
    assert_eq!(e.property_panel_target(), None);
    assert_eq!(e.selected_executable, None);
}

#[test]
fn removing_an_earlier_executable_keeps_the_selection_valid() {
    let mut e = loaded();
    e.select(0);
    e.begin_frame();
    e.remove_selected_executable();
    assert!(e.selection_is_valid());
    assert_eq!(e.property_panel_target(), Some(0));
}

#[test]
fn panel_target_needs_a_loaded_file() {
    let mut e = Editor::new();
    assert!(e.selection_is_valid());
    assert_eq!(e.property_panel_target(), None);
    e.select(3);
    assert!(!e.selection_is_valid());
    assert_eq!(e.property_panel_target(), None);
}

#[test]
fn a_frame_that_gets_through_the_panel_ends_valid() {
    let mut e = loaded();
    e.select(0);
    e.begin_frame();
    e.add_executable();
    e.remove_selected_executable();
    assert!(e.selection_is_valid());
    assert_eq!(e.property_panel_target(), Some(0));
    e.add_output();
    e.create_link(100, 201);
    assert!(e.selection_is_valid());
}

#[test]
fn adding_then_removing_an_executable() {
    let mut e = loaded();
    e.add_executable();
    assert_eq!(e.compose.as_ref().unwrap().executables.len(), 3);
    assert_eq!(e.compose.as_ref().unwrap().executables[2], Executable::default());
    e.select(2);
    e.remove_selected_executable();
    assert_eq!(e.compose.as_ref().unwrap().executables.len(), 2);
}

#[test]
fn links_are_created_and_destroyed() {
    let mut e = loaded();
    e.create_link(102, 203);
    assert_eq!(e.compose.as_ref().unwrap().links, vec![(100, 201), (102, 203)]);
    e.destroy_link(1);
    assert_eq!(e.compose.as_ref().unwrap().links, vec![(100, 201)]);
    e.destroy_link(0);
    assert!(e.compose.as_ref().unwrap().links.is_empty());
}

#[test]
fn python_environment_choices() {
    let mut e = loaded();
    e.select(0);
    e.set_python_system();
    let exe = |e: &Editor| e.compose.as_ref().unwrap().executables[0].exe_type.clone();
    assert_eq!(exe(&e), ExecutableType::PythonScript(PythonEnvironment::System));
    e.choose_conda();
    assert_eq!(
        exe(&e),
        ExecutableType::PythonScript(PythonEnvironment::Conda {
            conda_path: "/opt/conda/bin/conda".to_string(),
            conda_env: String::new()
        })
    );
    e.choose_detected_conda_env("/envs/a".to_string());
    assert_eq!(
        exe(&e),
        ExecutableType::PythonScript(PythonEnvironment::Conda {
            conda_path: "/opt/conda/bin/conda".to_string(),
            conda_env: "/envs/a".to_string()
        })
    );
    e.choose_virtualenv();
    assert_eq!(exe(&e), ExecutableType::PythonScript(PythonEnvironment::VirtualEnv { venv: String::new() }));
    e.set_custom_executable();
    assert_eq!(exe(&e), ExecutableType::CustomExecutable);
    assert_eq!(e.compose.as_ref().unwrap().executables[1], Executable::default());
}

#[test]
fn ports_are_added_to_the_selected_executable() {
    let mut e = loaded();
    e.select(1);
    e.add_input();
    e.add_output();
    e.add_output();
    let exe = &e.compose.as_ref().unwrap().executables[1];
    assert_eq!(exe.inputs, vec!["很随便的输入".to_string()]);
    assert_eq!(exe.outputs, vec!["某种输出".to_string(), "某种输出".to_string()]);
    assert!(e.compose.as_ref().unwrap().executables[0].inputs.is_empty());
    e.add_executable();
    e.create_link(100, 203);
    e.begin_frame();
    assert_eq!(e.selected_executable, Some(1));
}

#[test]
fn python_test_result_is_shown() {
    let mut e = loaded();
    e.set_python_test_result("ok".to_string());
    assert_eq!(e.python_test_result, "ok");
}
