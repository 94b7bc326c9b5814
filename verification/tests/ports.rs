use rdr_compose::compose::ComposeFile;
use rdr_compose::model::{Executable, ExecutableType};
use rdr_compose::ports::Subscription;
use std::collections::HashMap;

fn exe(name: &str, inputs: &[&str], outputs: &[&str]) -> Executable {
    Executable {
        name: name.to_string(),
        path: format!("./{}", name),
        inputs: inputs.iter().map(|s| s.to_string()).collect(),
        outputs: outputs.iter().map(|s| s.to_string()).collect(),
        arg_template: String::new(),
        env_template: HashMap::new(),
        exe_type: ExecutableType::CustomExecutable,
    }
}

fn compose(links: Vec<(usize, usize)>) -> ComposeFile {
    ComposeFile {
        version: "0.1".to_string(),
        conda_path: "conda".to_string(),
        links,
        executables: vec![
            exe("camera", &[], &["image", "image", "depth"]),
            exe("detector", &["image", "depth"], &["armors"]),
            exe("viewer", &["armors"], &[]),
        ],
    }
}

#[test]
fn output_ports_follow_file_order_from_5556() {
    let ports = compose(vec![]).output_ports();
    assert_eq!(ports, vec![vec![5556, 5557, 5558], vec![5559], vec![]]);
}

#[test]
fn output_ports_are_distinct() {
    let ports = compose(vec![]).output_ports();
    let mut all: Vec<i32> = ports.into_iter().flatten().collect();
    let n = all.len();
    all.sort();
    all.dedup();
    assert_eq!(all.len(), n);
}

#[test]
fn subscriptions_follow_links() {
    // camera output 2 (depth) -> detector input 1; detector output 0 -> viewer input 0
    let c = compose(vec![(104, 203), (200, 301)]);
    assert!(c.links_valid());
    let subs = c.subscriptions();
    assert_eq!(
        subs,
        vec![
            Subscription { server: 0, server_output: 2, client: 1, client_input: 1, port: 5558 },
            Subscription { server: 1, server_output: 0, client: 2, client_input: 0, port: 5559 },
        ]
    );
}

#[test]
fn subscriptions_to_a_shared_name_get_the_later_port() {
    // camera output 0 and output 1 are both called "image"
    let c = compose(vec![(100, 201), (102, 201)]);
    let subs = c.subscriptions();
    assert_eq!(subs[0].port, 5557);
    assert_eq!(subs[1].port, 5557);
}

#[test]
fn links_out_of_range_are_found() {
    assert!(compose(vec![]).links_valid());
    assert!(!compose(vec![(99, 201)]).links_valid());
    assert!(!compose(vec![(100, 50)]).links_valid());
    assert!(!compose(vec![(400, 201)]).links_valid());
    assert!(!compose(vec![(106, 201)]).links_valid());
    assert!(!compose(vec![(100, 105)]).links_valid());
    assert!(!compose(vec![(100, 303)]).links_valid());
}
