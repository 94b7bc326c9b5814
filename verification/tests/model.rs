use rdr_compose::model::{
    interpret_output, parse_pip_list, CommandSpec, Executable, ExecutableType, LaunchError, PythonEnvironment,
    RunError,
};
use std::collections::HashMap;

fn strings(items: &[&str]) -> Vec<String> {
    items.iter().map(|s| s.to_string()).collect()
}

fn custom(path: &str, template: &str) -> Executable {
    Executable {
        name: "node".to_string(),
        path: path.to_string(),
        inputs: vec![],
        outputs: vec![],
        arg_template: template.to_string(),
        env_template: HashMap::new(),
        exe_type: ExecutableType::CustomExecutable,
    }
}

#[test]
fn default_executable_is_an_untitled_program() {
    let exe = Executable::default();
    assert_eq!(exe.name, "未命名");
    assert_eq!(exe.path, "./untitled");
    assert_eq!(exe.arg_template, "");
    assert!(exe.env_template.is_empty());
    assert!(exe.inputs.is_empty());
    assert!(exe.outputs.is_empty());
    assert_eq!(exe.exe_type, ExecutableType::CustomExecutable);
}

#[test]
fn default_executable_type_is_custom() {
    assert_eq!(ExecutableType::default(), ExecutableType::CustomExecutable);
}

#[test]
fn conda_command_runs_python_in_the_environment() {
    let env = PythonEnvironment::Conda { conda_path: "/opt/conda/bin/conda".to_string(), conda_env: "/envs/rdr".to_string() };
    assert_eq!(
        env.get_command(),
        CommandSpec::new("/opt/conda/bin/conda".to_string(), strings(&["run", "-p", "/envs/rdr", "python"]), vec![])
    );
}

#[test]
fn virtualenv_command_runs_its_interpreter() {
    let env = PythonEnvironment::VirtualEnv { venv: "/home/u/venv".to_string() };
    assert_eq!(
        env.get_command(),
        CommandSpec::new(
            "/home/u/venv/bin/python3".to_string(),
            vec![],
            vec![("VIRTUAL_ENV".to_string(), Some("/home/u/venv".to_string()))]
        )
    );
}

#[test]
fn virtualenv_path_joins_like_pathbuf() {
    for venv in ["/home/u/venv/", "venv", "", "a/b"] {
        let env = PythonEnvironment::VirtualEnv { venv: venv.to_string() };
        let expected: std::path::PathBuf = [venv, "bin", "python3"].iter().collect();
        assert_eq!(env.get_command().program, expected.to_str().unwrap());
    }
}

#[test]
fn system_command_is_python3() {
    let cmd = PythonEnvironment::System.get_command();
    assert_eq!(cmd.program, "python3");
    assert!(cmd.args.is_empty());
    assert!(cmd.envs.is_empty());
}

#[test]
fn command_with_args_appends() {
    let env = PythonEnvironment::Conda { conda_path: "conda".to_string(), conda_env: "e".to_string() };
    let cmd = env.command_with_args(&strings(&["-c", "print(1)"]));
    assert_eq!(cmd.args, strings(&["run", "-p", "e", "python", "-c", "print(1)"]));
}

#[test]
fn test_commands_ask_version_and_packages() {
    let env = PythonEnvironment::System;
    assert_eq!(env.py_version_command().args, strings(&["-VV"]));
    assert_eq!(env.pip_list_command().args, strings(&["-m", "pip", "list", "--format=freeze"]));
    assert_eq!(
        env.module_version_command("cv2").args,
        strings(&["-c", "import cv2; print(cv2.__version__)"])
    );
}

#[test]
fn dry_run_prints_the_command() {
    assert_eq!(PythonEnvironment::System.dry_run(|c| c), "Command { std: \"python3\", kill_on_drop: false }");
    assert_eq!(
        PythonEnvironment::System.dry_run(|mut c| {
            c.arg("-VV".to_string());
            c
        }),
        "Command { std: \"python3\" \"-VV\", kill_on_drop: false }"
    );
    let env = PythonEnvironment::Conda { conda_path: "conda".to_string(), conda_env: "/e".to_string() };
    assert_eq!(
        env.dry_run(|mut c| {
            c.arg("x.py".to_string());
            c
        }),
        "Command { std: \"conda\" \"run\" \"-p\" \"/e\" \"python\" \"x.py\", kill_on_drop: false }"
    );
    let env = PythonEnvironment::VirtualEnv { venv: "/v".to_string() };
    assert_eq!(env.dry_run(|c| c), "Command { std: VIRTUAL_ENV=\"/v\" \"/v/bin/python3\", kill_on_drop: false }");
}

#[test]
fn dry_run_shows_every_change_the_closure_makes() {
    let check = |edit: fn(&mut CommandSpec), tokio_edit: fn(&mut tokio::process::Command)| {
        for env in [
            PythonEnvironment::System,
            PythonEnvironment::VirtualEnv { venv: "/v".to_string() },
            PythonEnvironment::Conda { conda_path: "conda".to_string(), conda_env: "e".to_string() },
        ] {
            let text = env.dry_run(|mut c| {
                edit(&mut c);
                c
            });
            let base = env.get_command();
            let mut command = tokio::process::Command::new(&base.program);
            command.args(&base.args);
            for (key, value) in &base.envs {
                command.env(key, value.as_ref().unwrap());
            }
            tokio_edit(&mut command);
            assert_eq!(text, format!("{:?}", command));
        }
    };
    check(
        |c| {
            c.env("A".to_string(), "1".to_string());
            c.env_remove("PATH".to_string());
        },
        |t| {
            t.env("A", "1").env_remove("PATH");
        },
    );
    check(
        |c| {
            c.env("B".to_string(), "2".to_string());
            c.env_clear();
            c.env("C".to_string(), "3".to_string());
        },
        |t| {
            t.env("B", "2").env_clear().env("C", "3");
        },
    );
    check(
        |c| {
            c.current_dir("/tmp".to_string());
            c.kill_on_drop(true);
            c.arg("-q".to_string());
        },
        |t| {
            t.current_dir("/tmp").kill_on_drop(true).arg("-q");
        },
    );
}

#[test]
fn launch_command_renders_and_splits_the_template() {
    let exe = custom("./detector", "--in {input} --out {output}");
    let mut values: HashMap<&str, String> = HashMap::new();
    values.insert("input", "tcp://127.0.0.1:5556".to_string());
    values.insert("output", "5557".to_string());
    let cmd = exe.launch_command(&values).unwrap();
    assert_eq!(cmd.program, "./detector");
    assert_eq!(cmd.args, strings(&["--in", "tcp://127.0.0.1:5556", "--out", "5557"]));
    assert!(cmd.envs.is_empty());
}

#[test]
fn launch_command_without_placeholders_keeps_the_template() {
    let exe = custom("./a", "-v  --fast");
    let cmd = exe.launch_command(&HashMap::new()).unwrap();
    assert_eq!(cmd.args, strings(&["-v", "", "--fast"]));
    let exe = custom("./a", "");
    assert_eq!(exe.launch_command(&HashMap::new()).unwrap().args, strings(&[""]));
}

#[test]
fn launch_command_fails_on_missing_value() {
    let exe = custom("./a", "--port {port}");
    match exe.launch_command(&HashMap::new()) {
        Err(LaunchError::MissingTemplateData(e)) => {
            assert_eq!(e.to_string(), "MissingData: Missing Data for Argument \"port\"")
        }
        other => panic!("expected a missing-data error, got {:?}", other),
    }
}

#[test]
fn command_from_rendered_splits_at_spaces() {
    let exe = custom("./b", "");
    let cmd = exe.command_from_rendered("x y");
    assert_eq!(cmd.program, "./b");
    assert_eq!(cmd.args, strings(&["x", "y"]));
}

#[test]
fn output_of_a_successful_command_is_its_stdout() {
    assert_eq!(interpret_output(true, b"Python 3.10.4\n".to_vec(), b"warn".to_vec()), Ok("Python 3.10.4\n".to_string()));
    let expected = String::from_utf8(vec![0xff, 0xfe]).unwrap_err();
    assert_eq!(interpret_output(true, vec![0xff, 0xfe], vec![]), Err(RunError::InvalidUtf8(expected)));
}

#[test]
fn output_of_a_failed_command_is_its_stderr() {
    assert_eq!(
        interpret_output(false, b"out".to_vec(), "错误".as_bytes().to_vec()),
        Err(RunError::Failed("错误".to_string()))
    );
    let expected = String::from_utf8(vec![0xc0]).unwrap_err();
    assert_eq!(interpret_output(false, vec![], vec![0xc0]), Err(RunError::InvalidUtf8(expected)));
}

#[test]
fn pip_list_is_split_into_lines() {
    assert_eq!(parse_pip_list("numpy==1.22.0\npyzmq==23.0.0\n"), strings(&["numpy==1.22.0", "pyzmq==23.0.0", ""]));
    assert_eq!(parse_pip_list(""), strings(&[""]));
}
