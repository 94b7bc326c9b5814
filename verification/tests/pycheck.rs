use rdr_compose::pycheck::{checked_native_modules, checked_pip_packages, find_package, python_test_report};

fn strings(items: &[&str]) -> Vec<String> {
    items.iter().map(|s| s.to_string()).collect()
}

#[test]
fn checked_names() {
    assert_eq!(checked_pip_packages(), strings(&["pyzmq", "numpy", "protobuf"]));
    assert_eq!(checked_native_modules(), strings(&["cv2"]));
}

#[test]
fn find_package_takes_the_first_prefix_match() {
    let pkgs = strings(&["numpy==1.22.0", "protobuf==4.21", "protobuf-x==1"]);
    assert_eq!(find_package(&pkgs, "protobuf"), Some(1));
    assert_eq!(find_package(&pkgs, "num"), Some(0));
    assert_eq!(find_package(&pkgs, "pyzmq"), None);
}

#[test]
fn report_of_a_failed_version_test() {
    assert_eq!(python_test_report(None, None, &vec![]), "版本测试失败！");
}

#[test]
fn report_lists_packages_and_modules() {
    let pkgs = strings(&["numpy==1.22.0", "pyzmq==23.0.0", ""]);
    let native = vec![("cv2".to_string(), Some("4.5.5\n".to_string()))];
    assert_eq!(
        python_test_report(Some("Python 3.10.4 (main)\n"), Some(&pkgs), &native),
        "Python 3.10.4 (main)\n找到 pyzmq==23.0.0\n找到 numpy==1.22.0\n*protobuf 未安装！*\n找到 cv2==4.5.5\n"
    );
}

#[test]
fn report_without_package_list() {
    let native = vec![("cv2".to_string(), None)];
    assert_eq!(
        python_test_report(Some(" 3.9 "), None, &native),
        "3.9\n*未能获取 pip 包信息！*\n*cv2 未安装！*"
    );
}
