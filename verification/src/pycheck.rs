//! The report of the editor's Python environment test.

use vstd::prelude::*;
use crate::model::{CommandSpec, PythonEnvironment, python_command, with_args};
use crate::text::{has_prefix, starts_with, string_of, trim, trimmed};

verus! {

/// The first package whose `name==version` line begins with `name`, if any.
pub open spec fn first_with_prefix(packages: Seq<Seq<char>>, name: Seq<char>) -> Option<int>
    decreases packages.len(),
{
    if packages.len() == 0 {
        None
    } else if has_prefix(packages[0], name) {
        Some(0)
    } else {
        match first_with_prefix(packages.drop_first(), name) {
            Some(k) => Some(k + 1),
            None => None,
        }
    }
}

/// The report's line on one wanted pip package: the first installed package
/// line that begins with its name, or a note that it is missing.
pub open spec fn package_line(packages: Seq<Seq<char>>, name: Seq<char>) -> Seq<char> {
    match first_with_prefix(packages, name) {
        Some(k) => "\n找到 "@ + packages[k],
        None => "\n*"@ + name + " 未安装！*"@,
    }
}

/// The report's lines on the wanted pip packages, in order.
pub open spec fn package_lines(packages: Seq<Seq<char>>, wanted: Seq<Seq<char>>) -> Seq<char>
    decreases wanted.len(),
{
    if wanted.len() == 0 {
        Seq::empty()
    } else {
        package_lines(packages, wanted.drop_last()) + package_line(packages, wanted.last())
    }
}

/// The report's line on a native module and the version it printed, if it could be imported.
pub open spec fn native_line(module: Seq<char>, version: Option<Seq<char>>) -> Seq<char> {
    match version {
        Some(v) => "\n找到 "@ + module + "=="@ + v,
        None => "\n*"@ + module + " 未安装！*"@,
    }
}

/// The report's lines on the native modules, in order.
pub open spec fn native_lines(native: Seq<(Seq<char>, Option<Seq<char>>)>) -> Seq<char>
    decreases native.len(),
{
    if native.len() == 0 {
        Seq::empty()
    } else {
        native_lines(native.drop_last()) + native_line(native.last().0, native.last().1)
    }
}

/// The whole report: the interpreter's version, trimmed, then a line per wanted
/// pip package (or one note that the package list could not be had), then a line
/// per native module; or a note that the version test failed.
pub open spec fn python_report(
    version: Option<Seq<char>>,
    packages: Option<Seq<Seq<char>>>,
    wanted: Seq<Seq<char>>,
    native: Seq<(Seq<char>, Option<Seq<char>>)>,
) -> Seq<char> {
    match version {
        None => "版本测试失败！"@,
        Some(v) => {
            let pip = match packages {
                Some(p) => package_lines(p, wanted),
                None => "\n*未能获取 pip 包信息！*"@,
            };
            trimmed(v) + pip + native_lines(native)
        },
    }
}

/// The pip packages that the test looks for.
pub fn checked_pip_packages() -> (names: Vec<String>)
    ensures
        names.deep_view() == seq!["pyzmq"@, "numpy"@, "protobuf"@],
{
    let mut names: Vec<String> = Vec::new();
    names.push(string_of("pyzmq"));
    names.push(string_of("numpy"));
    names.push(string_of("protobuf"));
    proof {
        assert(names.deep_view() =~= seq!["pyzmq"@, "numpy"@, "protobuf"@]);
    }
    names
}

/// The native modules that the test tries to import.
pub fn checked_native_modules() -> (names: Vec<String>)
    ensures
        names.deep_view() == seq!["cv2"@],
{
    let mut names: Vec<String> = Vec::new();
    names.push(string_of("cv2"));
    proof {
        assert(names.deep_view() =~= seq!["cv2"@]);
    }
    names
}

/// The Python statement that prints a module's version.
pub open spec fn version_statement(module: Seq<char>) -> Seq<char> {
    "import "@ + module + "; print("@ + module + ".__version__)"@
}

impl PythonEnvironment {
    /// The command that imports `module` and prints its version.
    pub fn module_version_command(&self, module: &str) -> (cmd: CommandSpec)
        ensures
            cmd@ == with_args(python_command(*self), seq!["-c"@, version_statement(module@)]),
    {
        let mut statement = string_of("import ");
        statement.append(module);
        statement.append("; print(");
        statement.append(module);
        statement.append(".__version__)");
        let mut extra: Vec<String> = Vec::new();
        extra.push(string_of("-c"));
        extra.push(statement);
        proof {
            assert(extra.deep_view() =~= seq!["-c"@, version_statement(module@)]);
        }
        self.command_with_args(&extra)
    }
}

/// The first package found begins with the name.
pub proof fn lemma_first_with_prefix(packages: Seq<Seq<char>>, name: Seq<char>)
    ensures
        first_with_prefix(packages, name) matches Some(k) ==> 0 <= k < packages.len() && has_prefix(packages[k], name),
    decreases packages.len(),
{
    if packages.len() > 0 && !has_prefix(packages[0], name) {
        lemma_first_with_prefix(packages.drop_first(), name);
    }
}

/// The package found for a name is the one at the lowest index whose line
/// begins with the name; none is found exactly when no line begins with it.
pub proof fn lemma_first_with_prefix_is_lowest(packages: Seq<Seq<char>>, name: Seq<char>, k: int)
    ensures
        first_with_prefix(packages, name) == Some(k) <==> (0 <= k < packages.len() && has_prefix(packages[k], name)
            && forall|j: int| 0 <= j < k ==> !has_prefix(#[trigger] packages[j], name)),
        first_with_prefix(packages, name) is None <==> forall|j: int| 0 <= j < packages.len() ==> !has_prefix(#[trigger] packages[j], name),
    decreases packages.len(),
{
    if packages.len() > 0 {
        let rest = packages.drop_first();
        lemma_first_with_prefix_is_lowest(rest, name, k - 1);
        assert forall|j: int| 0 <= j < rest.len() implies rest[j] == packages[j + 1] by {}
        if !has_prefix(packages[0], name) {
            if forall|j: int| 0 <= j < rest.len() ==> !has_prefix(#[trigger] rest[j], name) {
                assert forall|j: int| 0 <= j < packages.len() implies !has_prefix(#[trigger] packages[j], name) by {
                    if j > 0 {
                        assert(packages[j] == rest[j - 1]);
                    }
                }
            } else {
                let j0 = choose|j: int| 0 <= j < rest.len() && has_prefix(#[trigger] rest[j], name);
                assert(has_prefix(packages[j0 + 1], name));
            }
            if 0 <= k < packages.len() && has_prefix(packages[k], name)
                && forall|j: int| 0 <= j < k ==> !has_prefix(#[trigger] packages[j], name) {
                assert forall|j: int| 0 <= j < k - 1 implies !has_prefix(#[trigger] rest[j], name) by {
                    assert(rest[j] == packages[j + 1]);
                }
            }
            if first_with_prefix(packages, name) == Some(k) {
                assert forall|j: int| 0 <= j < k implies !has_prefix(#[trigger] packages[j], name) by {
                    if j > 0 {
                        assert(packages[j] == rest[j - 1]);
                    }
                }
            }
        }
    }
}

/// The report's line on a wanted package quotes the package line at the
/// lowest index that begins with the package's name, and says the package is
/// missing where no line begins with it.
pub proof fn lemma_package_line_quotes_first(packages: Seq<Seq<char>>, name: Seq<char>, k: int)
    ensures
        0 <= k < packages.len() && has_prefix(packages[k], name)
            && (forall|j: int| 0 <= j < k ==> !has_prefix(#[trigger] packages[j], name))
            ==> package_line(packages, name) == "\n找到 "@ + packages[k],
        (forall|j: int| 0 <= j < packages.len() ==> !has_prefix(#[trigger] packages[j], name))
            ==> package_line(packages, name) == "\n*"@ + name + " 未安装！*"@,
{
    lemma_first_with_prefix_is_lowest(packages, name, k);
}

/// The lines on two lists of wanted packages, one after the other, are the
/// lines on the two lists joined; one wanted package gives its one line.
pub proof fn lemma_package_lines_append(packages: Seq<Seq<char>>, a: Seq<Seq<char>>, b: Seq<Seq<char>>)
    ensures
        package_lines(packages, a + b) == package_lines(packages, a) + package_lines(packages, b),
    decreases b.len(),
{
    if b.len() == 0 {
        assert(a + b =~= a);
        assert(package_lines(packages, a) + Seq::<char>::empty() =~= package_lines(packages, a));
    } else {
        lemma_package_lines_append(packages, a, b.drop_last());
        assert((a + b).drop_last() =~= a + b.drop_last());
        assert((a + b).last() == b.last());
        assert(package_lines(packages, a) + package_lines(packages, b.drop_last()) + package_line(packages, b.last())
            =~= package_lines(packages, a) + (package_lines(packages, b.drop_last()) + package_line(packages, b.last())));
    }
}

/// One wanted package gives its one line.
pub proof fn lemma_package_lines_single(packages: Seq<Seq<char>>, name: Seq<char>)
    ensures
        package_lines(packages, seq![name]) == package_line(packages, name),
{
    assert(seq![name].drop_last() =~= Seq::<Seq<char>>::empty());
    assert(package_lines(packages, seq![name].drop_last()) == Seq::<char>::empty());
    assert(seq![name].last() == name);
    assert(Seq::<char>::empty() + package_line(packages, name) =~= package_line(packages, name));
}

/// The lines on two lists of native modules, one after the other, are the
/// lines on the two lists joined.
pub proof fn lemma_native_lines_append(a: Seq<(Seq<char>, Option<Seq<char>>)>, b: Seq<(Seq<char>, Option<Seq<char>>)>)
    ensures
        native_lines(a + b) == native_lines(a) + native_lines(b),
    decreases b.len(),
{
    if b.len() == 0 {
        assert(a + b =~= a);
        assert(native_lines(a) + Seq::<char>::empty() =~= native_lines(a));
    } else {
        lemma_native_lines_append(a, b.drop_last());
        assert((a + b).drop_last() =~= a + b.drop_last());
        assert((a + b).last() == b.last());
        assert(native_lines(a) + native_lines(b.drop_last()) + native_line(b.last().0, b.last().1)
            =~= native_lines(a) + (native_lines(b.drop_last()) + native_line(b.last().0, b.last().1)));
    }
}

/// One native module gives its one line.
pub proof fn lemma_native_lines_single(module: Seq<char>, version: Option<Seq<char>>)
    ensures
        native_lines(seq![(module, version)]) == native_line(module, version),
{
    assert(seq![(module, version)].drop_last() =~= Seq::<(Seq<char>, Option<Seq<char>>)>::empty());
    assert(native_lines(seq![(module, version)].drop_last()) == Seq::<char>::empty());
    assert(seq![(module, version)].last() == (module, version));
    assert(Seq::<char>::empty() + native_line(module, version) =~= native_line(module, version));
}

/// With a package list, the report is the trimmed version, then one line per
/// wanted package in the order wanted, each quoting the first package line
/// that begins with its name as the given list orders them, then one line per
/// native module.
pub proof fn lemma_report_with_packages(
    version: Seq<char>,
    packages: Seq<Seq<char>>,
    wanted: Seq<Seq<char>>,
    native: Seq<(Seq<char>, Option<Seq<char>>)>,
)
    ensures
        python_report(Some(version), Some(packages), wanted, native)
            == trimmed(version) + package_lines(packages, wanted) + native_lines(native),
        python_report(Some(version), None, wanted, native)
            == trimmed(version) + "\n*未能获取 pip 包信息！*"@ + native_lines(native),
        python_report(None, Some(packages), wanted, native) == "版本测试失败！"@,
{
}

/// With one wanted package and no native module, the report is the trimmed
/// version and the line that quotes the package line at the lowest index
/// that begins with the package's name.
pub proof fn lemma_report_quotes_first_match(version: Seq<char>, packages: Seq<Seq<char>>, name: Seq<char>, k: int)
    requires
        0 <= k < packages.len(),
        has_prefix(packages[k], name),
        forall|j: int| 0 <= j < k ==> !has_prefix(#[trigger] packages[j], name),
    ensures
        python_report(Some(version), Some(packages), seq![name], seq![]) == trimmed(version) + "\n找到 "@ + packages[k],
{
    lemma_package_lines_single(packages, name);
    lemma_package_line_quotes_first(packages, name, k);
    assert(native_lines(seq![]) == Seq::<char>::empty());
    assert(trimmed(version) + ("\n找到 "@ + packages[k]) + Seq::<char>::empty() =~= trimmed(version) + "\n找到 "@ + packages[k]);
}

/// The index of the first package line that begins with `name`.
pub fn find_package(packages: &Vec<String>, name: &str) -> (r: Option<usize>)
    ensures
        r matches Some(k) ==> first_with_prefix(packages.deep_view(), name@) == Some(k as int),
        r is None ==> first_with_prefix(packages.deep_view(), name@) is None,
        r matches Some(k) ==> k < packages@.len(),
{
    let ghost all = packages.deep_view();
    let mut i: usize = 0;
    proof {
        assert(all.skip(0) =~= all);
        lemma_first_with_prefix(all, name@);
    }
    while i < packages.len()
        invariant
            all == packages.deep_view(),
            i <= packages@.len(),
            first_with_prefix(all, name@) == match first_with_prefix(all.skip(i as int), name@) {
                Some(k) => Some(k + i),
                None => None::<int>,
            },
        decreases packages.len() - i,
    {
        proof {
            assert(all.skip(i as int)[0] == packages@[i as int]@);
            assert(all.skip(i as int).drop_first() =~= all.skip(i + 1));
        }
        if starts_with(packages[i].as_str(), name) {
            return Some(i);
        }
        i = i + 1;
    }
    proof {
        assert(all.skip(i as int).len() == 0);
    }
    None
}

/// The report of the Python environment test, from the interpreter's version
/// output (if it ran), its package list (if it could be had), and for each
/// native module the version it printed (if it could be imported).
pub fn python_test_report(
    version: Option<&str>,
    packages: Option<&Vec<String>>,
    native: &Vec<(String, Option<String>)>,
) -> (report: String)
    ensures
        report@ == python_report(
            version.deep_view(),
            packages.deep_view(),
            seq!["pyzmq"@, "numpy"@, "protobuf"@],
            native.deep_view(),
        ),
{
    match version {
        None => string_of("版本测试失败！"),
        Some(v) => {
            let mut report = trim(v);
            let ghost start = report@;
            match packages {
                Some(pkgs) => {
                    let wanted = checked_pip_packages();
                    let mut w: usize = 0;
                    while w < wanted.len()
                        invariant
                            wanted.deep_view() == seq!["pyzmq"@, "numpy"@, "protobuf"@],
                            w <= wanted@.len(),
                            report@ == start + package_lines(pkgs.deep_view(), wanted.deep_view().take(w as int)),
                        decreases wanted.len() - w,
                    {
                        proof {
                            assert(wanted.deep_view().take(w + 1).drop_last() =~= wanted.deep_view().take(w as int));
                        }
                        let ghost before = report@;
                        let ghost name = wanted.deep_view()[w as int];
                        proof {
                            assert(wanted.deep_view().take(w + 1).last() == name);
                            assert(name == wanted@[w as int]@);
                            lemma_first_with_prefix(pkgs.deep_view(), name);
                        }
                        match find_package(pkgs, wanted[w].as_str()) {
                            Some(k) => {
                                report.append("\n找到 ");
                                report.append(pkgs[k].as_str());
                                proof {
                                    assert(pkgs.deep_view()[k as int] == pkgs@[k as int]@);
                                    assert(first_with_prefix(pkgs.deep_view(), name) == Some(k as int));
                                    assert(package_line(pkgs.deep_view(), name) == "\n找到 "@ + pkgs@[k as int]@);
                                    assert(report@ =~= before + package_line(pkgs.deep_view(), name));
                                }
                            },
                            None => {
                                report.append("\n*");
                                report.append(wanted[w].as_str());
                                report.append(" 未安装！*");
                                proof {
                                    assert(report@ =~= before + package_line(pkgs.deep_view(), name));
                                }
                            },
                        }
                        w = w + 1;
                    }
                    proof {
                        assert(wanted.deep_view().take(w as int) =~= wanted.deep_view());
                    }
                },
                None => {
                    report.append("\n*未能获取 pip 包信息！*");
                },
            }
            let ghost middle = report@;
            let mut m: usize = 0;
            while m < native.len()
                invariant
                    m <= native@.len(),
                    report@ == middle + native_lines(native.deep_view().take(m as int)),
                decreases native.len() - m,
            {
                proof {
                    assert(native.deep_view().take(m + 1).drop_last() =~= native.deep_view().take(m as int));
                }
                let ghost before = report@;
                let ghost entry = native.deep_view()[m as int];
                proof {
                    assert(native.deep_view().take(m + 1).last() == entry);
                }
                let (module, found) = &native[m];
                match found {
                    Some(ver) => {
                        report.append("\n找到 ");
                        report.append(module.as_str());
                        report.append("==");
                        report.append(ver.as_str());
                        proof {
                            assert(report@ =~= before + native_line(entry.0, entry.1));
                        }
                    },
                    None => {
                        report.append("\n*");
                        report.append(module.as_str());
                        report.append(" 未安装！*");
                        proof {
                            assert(report@ =~= before + native_line(entry.0, entry.1));
                        }
                    },
                }
                m = m + 1;
            }
            proof {
                assert(native.deep_view().take(m as int) =~= native.deep_view());
            }
            report
        },
    }
}

} // verus!
