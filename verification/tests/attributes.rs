use rdr_compose::compose::{attribute_id_to_index, conda_path_default, index_to_attribute_id, ComposeFile};
use rdr_compose::model::{Executable, ExecutableType};
use std::collections::HashMap;

fn exe(name: &str, inputs: &[&str], outputs: &[&str]) -> Executable {
    Executable {
        name: name.to_string(),
        path: format!("./{}", name),
        inputs: inputs.iter().map(|s| s.to_string()).collect(),
        outputs: outputs.iter().map(|s| s.to_string()).collect(),
        arg_template: String::new(),
        env_template: HashMap::new(),
        exe_type: ExecutableType::CustomExecutable,
    }
}

#[test]
fn attribute_id_to_index_splits_hundreds_and_ports() {
    assert_eq!(attribute_id_to_index(100), (0, 0));
    assert_eq!(attribute_id_to_index(101), (0, 0));
    assert_eq!(attribute_id_to_index(203), (1, 1));
    assert_eq!(attribute_id_to_index(257), (1, 28));
    assert_eq!(attribute_id_to_index(1299), (11, 49));
}

#[test]
fn index_to_attribute_id_numbers_ports() {
    assert_eq!(index_to_attribute_id(0, 0), 100);
    assert_eq!(index_to_attribute_id(1, 1), 202);
    assert_eq!(index_to_attribute_id(4, 49), 598);
}

#[test]
fn attribute_ids_round_trip_below_fifty_ports() {
    for e in 0..20usize {
        for p in 0..50usize {
            let id = index_to_attribute_id(e, p);
            assert_eq!(id % 2, 0);
            assert_eq!(attribute_id_to_index(id), (e, p));
            assert_eq!(attribute_id_to_index(id + 1), (e, p));
        }
    }
}

#[test]
fn attribute_ids_from_index_round_down_to_even() {
    for id in 100..1000usize {
        let (e, p) = attribute_id_to_index(id);
        assert_eq!(index_to_attribute_id(e, p), id - id % 2);
    }
}

#[test]
fn port_fifty_spills_into_next_executable() {
    let id = index_to_attribute_id(0, 50);
    assert_eq!(id, 200);
    assert_eq!(attribute_id_to_index(id), (1, 0));
}

#[test]
fn attribute_id_to_obj_reads_odd_ids_as_inputs() {
    let compose = ComposeFile {
        version: "1".to_string(),
        conda_path: conda_path_default(),
        links: vec![],
        executables: vec![exe("a", &["in0", "in1"], &["out0"]), exe("b", &["x"], &["y", "z"])],
    };
    let (e, port) = compose.attribute_id_to_obj(101);
    assert_eq!(e.name, "a");
    assert_eq!(port, "in0");
    let (e, port) = compose.attribute_id_to_obj(103);
    assert_eq!(e.name, "a");
    assert_eq!(port, "in1");
    let (e, port) = compose.attribute_id_to_obj(100);
    assert_eq!(e.name, "a");
    assert_eq!(port, "out0");
    let (e, port) = compose.attribute_id_to_obj(202);
    assert_eq!(e.name, "b");
    assert_eq!(port, "z");
    let (_, port) = compose.attribute_id_to_obj(201);
    assert_eq!(port, "x");
}

#[test]
fn conda_path_defaults_to_conda() {
    assert_eq!(conda_path_default(), "conda");
}
