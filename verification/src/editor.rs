//! The state of the compose editor and what each of its controls does to it.

use vstd::prelude::*;
use crate::compose::ComposeFile;
use crate::text::string_of;
use crate::model::{Executable, ExecutableType, PythonEnvironment, is_fresh_executable};

verus! {

/// What the editor holds between two frames: the file it loads from and saves
/// to, the compose file being edited, the conda environments found, the
/// executable whose properties are shown, a pending "give up", and the result
/// of the last Python environment test.
#[derive(Debug)]
pub struct Editor {
    pub compose_path: String,
    pub compose: Option<ComposeFile>,
    pub conda_envs: Option<Vec<String>>,
    pub selected_executable: Option<usize>,
    pub giving_up: bool,
    pub python_test_result: String,
}

/// The selection names an executable of the loaded compose file.
pub open spec fn selection_valid(e: Editor) -> bool {
    e.selected_executable matches Some(s) ==> (e.compose matches Some(c) && s < c.executables@.len())
}

/// A compose file is loaded and the selection names one of its executables.
pub open spec fn has_selected(e: Editor) -> bool {
    &&& e.compose is Some
    &&& e.selected_executable is Some
    &&& e.selected_executable->0 < e.compose->0.executables@.len()
}

/// The executable whose properties are shown.
pub open spec fn selected_exe(e: Editor) -> Executable {
    e.compose->0.executables@[e.selected_executable->0 as int]
}

/// Nothing but the compose file changed.
pub open spec fn only_compose_changed(before: Editor, after: Editor) -> bool {
    &&& after.compose_path == before.compose_path
    &&& after.conda_envs == before.conda_envs
    &&& after.selected_executable == before.selected_executable
    &&& after.giving_up == before.giving_up
    &&& after.python_test_result == before.python_test_result
}

/// Both hold a compose file, and it differs at most in its executables.
pub open spec fn only_executables_changed(before: Editor, after: Editor) -> bool {
    &&& only_compose_changed(before, after)
    &&& before.compose is Some
    &&& after.compose is Some
    &&& after.compose->0.version == before.compose->0.version
    &&& after.compose->0.conda_path == before.compose->0.conda_path
    &&& after.compose->0.links == before.compose->0.links
}

/// Both hold a compose file, and it differs at most in its links.
pub open spec fn only_links_changed(before: Editor, after: Editor) -> bool {
    &&& only_compose_changed(before, after)
    &&& before.compose is Some
    &&& after.compose is Some
    &&& after.compose->0.version == before.compose->0.version
    &&& after.compose->0.conda_path == before.compose->0.conda_path
    &&& after.compose->0.executables == before.compose->0.executables
}

/// Only the selected executable changed, and in it at most its ports and type.
pub open spec fn only_selected_changed(before: Editor, after: Editor) -> bool {
    &&& only_executables_changed(before, after)
    &&& has_selected(before)
    &&& after.compose->0.executables@.len() == before.compose->0.executables@.len()
    &&& forall|k: int| 0 <= k < before.compose->0.executables@.len() && k != before.selected_executable->0
        ==> after.compose->0.executables@[k] == #[trigger] before.compose->0.executables@[k]
    &&& selected_exe(after).name == selected_exe(before).name
    &&& selected_exe(after).path == selected_exe(before).path
    &&& selected_exe(after).arg_template == selected_exe(before).arg_template
    &&& selected_exe(after).env_template == selected_exe(before).env_template
}

/// Detaching the link just created leaves the links as they were.
pub proof fn lemma_destroy_undoes_create(links: Seq<(usize, usize)>, start: usize, end: usize)
    ensures
        links.push((start, end)).remove(links.len() as int) == links,
{
    assert(links.push((start, end)).remove(links.len() as int) =~= links);
}

/// Deleting the executable just added, once it is selected, leaves the
/// executables as they were.
pub proof fn lemma_remove_undoes_add(executables: Seq<Executable>, added: Executable)
    ensures
        executables.push(added).remove(executables.len() as int) == executables,
{
    assert(executables.push(added).remove(executables.len() as int) =~= executables);
}

/// Editing the selected executable, adding an executable, or adding or
/// removing a link keeps a valid selection valid: within a frame, only the
/// removal of the selected executable, when it is the last one, leaves a
/// selection that names no executable.
pub proof fn lemma_edits_keep_selection(before: Editor, after: Editor)
    requires
        selection_valid(before),
        only_compose_changed(before, after),
        before.compose is Some ==> after.compose is Some
            && after.compose->0.executables@.len() >= before.compose->0.executables@.len(),
    ensures
        selection_valid(after),
{
}

/// An edit of the executable list: a loaded compose file stays loaded, and a
/// selection that changes is made in a loaded compose file.
pub open spec fn list_edit(before: Editor, after: Editor) -> bool {
    &&& before.compose is Some ==> after.compose is Some
    &&& (after.selected_executable is Some && after.selected_executable != before.selected_executable)
        ==> after.compose is Some
}

/// An edit that keeps the selection, and keeps a loaded compose file loaded with
/// no fewer executables.
pub open spec fn keeps_selection(before: Editor, after: Editor) -> bool {
    &&& after.selected_executable == before.selected_executable
    &&& before.compose is Some ==> (after.compose is Some && after.compose->0.executables@.len()
        >= before.compose->0.executables@.len())
}

/// The property panel gets through: where a file is loaded and an executable is
/// selected, the selection names one of its executables (the panel reaches the
/// executable by its index, which stops the program otherwise).
pub open spec fn panel_passes(e: Editor) -> bool {
    e.compose is Some ==> selection_valid(e)
}

/// List edits follow one another as one list edit.
pub proof fn lemma_list_edits_compose(a: Editor, b: Editor, c: Editor)
    requires
        list_edit(a, b),
        list_edit(b, c),
    ensures
        list_edit(a, c),
{
}

/// A frame that returns normally ends with a selection that names an executable
/// of the loaded compose file. The frame starts with `begin_frame`, which leaves
/// the selection valid; the list's controls (`give_up`, `load`, `select` on a
/// loaded file, `add_executable`, `remove_selected_executable`) are list edits;
/// the property panel gets through; then the panel's controls and the node
/// view's link edits keep the selection.
pub proof fn lemma_frame_ends_valid(begun: Editor, listed: Editor, edited: Editor, end: Editor)
    requires
        selection_valid(begun),
        list_edit(begun, listed),
        panel_passes(listed),
        keeps_selection(listed, edited),
        keeps_selection(edited, end),
    ensures
        selection_valid(end),
{
}

impl Editor {
    /// The editor as it opens: nothing loaded, the default file path filled in,
    /// and a hint where the Python test result will stand.
    pub fn new() -> (e: Editor)
        ensures
            e.compose_path@ == "/home/shiroki/code/rdr-rs/rdr-compose/test.toml"@,
            e.python_test_result@ == "<-点击左侧按钮进行测试"@,
            e.compose is None,
            e.conda_envs is None,
            e.selected_executable is None,
            !e.giving_up,
    {
        Editor {
            compose_path: string_of("/home/shiroki/code/rdr-rs/rdr-compose/test.toml"),
            compose: None,
            conda_envs: None,
            selected_executable: None,
            giving_up: false,
            python_test_result: string_of("<-点击左侧按钮进行测试"),
        }
    }

    /// The start of a frame: a pending "give up" unloads the compose file, and
    /// a selection that names no executable any more is dropped.
    pub fn begin_frame(&mut self)
        ensures
            final(self).compose == (if old(self).giving_up { None } else { old(self).compose }),
            !final(self).giving_up,
            final(self).selected_executable == (match old(self).selected_executable {
                Some(s) => if final(self).compose matches Some(c) && s < c.executables@.len() {
                    Some(s)
                } else {
                    None
                },
                None => None,
            }),
            selection_valid(*final(self)),
            final(self).compose_path == old(self).compose_path,
            final(self).conda_envs == old(self).conda_envs,
            final(self).python_test_result == old(self).python_test_result,
    {
        if self.giving_up {
            self.compose = None;
            self.giving_up = false;
        }
        if let Some(select) = self.selected_executable {
            let keep = match &self.compose {
                Some(c) => c.executables.len() > select,
                None => false,
            };
            if !keep {
                self.selected_executable = None;
            }
        }
    }

    /// Whether the selection names an executable of the loaded compose file.
    pub fn selection_is_valid(&self) -> (r: bool)
        ensures
            r == selection_valid(*self),
    {
        match (self.selected_executable, &self.compose) {
            (Some(s), Some(c)) => s < c.executables.len(),
            (Some(_), None) => false,
            (None, _) => true,
        }
    }

    /// The executable whose properties the panel shows: the selected one, once a
    /// compose file is loaded. The panel reaches it by its index, which stops the
    /// program on a selection that names no executable of a loaded file, so such
    /// a selection is left out here.
    pub fn property_panel_target(&self) -> (r: Option<usize>)
        requires
            panel_passes(*self),
        ensures
            r == (if self.compose is Some {
                self.selected_executable
            } else {
                None::<usize>
            }),
            r is Some ==> has_selected(*self),
    {
        match (self.selected_executable, &self.compose) {
            (Some(s), Some(_)) => Some(s),
            _ => None,
        }
    }

    /// "Give up": the compose file is dropped at the start of the next frame.
    pub fn give_up(&mut self)
        ensures
            list_edit(*old(self), *final(self)),
            final(self).giving_up,
            final(self).compose == old(self).compose,
            final(self).compose_path == old(self).compose_path,
            final(self).conda_envs == old(self).conda_envs,
            final(self).selected_executable == old(self).selected_executable,
            final(self).python_test_result == old(self).python_test_result,
    {
        self.giving_up = true;
    }

    /// A compose file was loaded, with the conda environments found for it.
    pub fn load(&mut self, compose: ComposeFile, conda_envs: Option<Vec<String>>)
        ensures
            list_edit(*old(self), *final(self)),
            final(self).compose == Some(compose),
            final(self).conda_envs == conda_envs,
            final(self).compose_path == old(self).compose_path,
            final(self).selected_executable == old(self).selected_executable,
            final(self).giving_up == old(self).giving_up,
            final(self).python_test_result == old(self).python_test_result,
    {
        self.conda_envs = conda_envs;
        self.compose = Some(compose);
    }

    /// The row of executable `index` was clicked.
    pub fn select(&mut self, index: usize)
        ensures
            old(self).compose is Some ==> list_edit(*old(self), *final(self)),
            final(self).selected_executable == Some(index),
            final(self).compose == old(self).compose,
            final(self).compose_path == old(self).compose_path,
            final(self).conda_envs == old(self).conda_envs,
            final(self).giving_up == old(self).giving_up,
            final(self).python_test_result == old(self).python_test_result,
    {
        self.selected_executable = Some(index);
    }

    /// The result of a Python environment test is shown.
    pub fn set_python_test_result(&mut self, result: String)
        ensures
            keeps_selection(*old(self), *final(self)),
            final(self).python_test_result == result,
            final(self).compose == old(self).compose,
            final(self).compose_path == old(self).compose_path,
            final(self).conda_envs == old(self).conda_envs,
            final(self).selected_executable == old(self).selected_executable,
            final(self).giving_up == old(self).giving_up,
    {
        self.python_test_result = result;
    }
}

impl Editor {
    /// "Add" under the executable list: a fresh executable is appended.
    pub fn add_executable(&mut self)
        requires
            old(self).compose is Some,
        ensures
            list_edit(*old(self), *final(self)),
            only_executables_changed(*old(self), *final(self)),
            final(self).compose->0.executables@.len() == old(self).compose->0.executables@.len() + 1,
            forall|k: int| 0 <= k < old(self).compose->0.executables@.len()
                ==> final(self).compose->0.executables@[k] == #[trigger] old(self).compose->0.executables@[k],
            is_fresh_executable(final(self).compose->0.executables@.last()),
    {
        let mut compose = self.compose.take().unwrap();
        compose.executables.push(Executable::default());
        self.compose = Some(compose);
    }

    /// "Delete" under the executable list: the selected executable is removed.
    /// The selection itself is left as it is until the next frame starts, so it
    /// stays valid exactly when the removed executable was not the last one.
    pub fn remove_selected_executable(&mut self)
        requires
            has_selected(*old(self)),
        ensures
            list_edit(*old(self), *final(self)),
            only_executables_changed(*old(self), *final(self)),
            selection_valid(*final(self)) <==> old(self).selected_executable->0 + 1
                < old(self).compose->0.executables@.len(),
            final(self).compose->0.executables@ == old(self).compose->0.executables@.remove(
                old(self).selected_executable->0 as int,
            ),
    {
        let s = self.selected_executable.unwrap();
        let mut compose = self.compose.take().unwrap();
        compose.executables.remove(s);
        self.compose = Some(compose);
    }

    /// A link was dragged from attribute `start` to attribute `end`.
    pub fn create_link(&mut self, start: usize, end: usize)
        requires
            old(self).compose is Some,
        ensures
            keeps_selection(*old(self), *final(self)),
            only_links_changed(*old(self), *final(self)),
            final(self).compose->0.links@ == old(self).compose->0.links@.push((start, end)),
    {
        let mut compose = self.compose.take().unwrap();
        compose.links.push((start, end));
        self.compose = Some(compose);
    }

    /// Link `index` was detached.
    pub fn destroy_link(&mut self, index: usize)
        requires
            old(self).compose matches Some(c) && index < c.links@.len(),
        ensures
            keeps_selection(*old(self), *final(self)),
            only_links_changed(*old(self), *final(self)),
            final(self).compose->0.links@ == old(self).compose->0.links@.remove(index as int),
    {
        let mut compose = self.compose.take().unwrap();
        compose.links.remove(index);
        self.compose = Some(compose);
    }

    /// Takes the selected executable out, to be put back with `put_selected`.
    fn take_selected(&mut self) -> (r: (ComposeFile, usize, Executable))
        requires
            has_selected(*old(self)),
        ensures
            r.1 == old(self).selected_executable->0,
            r.2 == selected_exe(*old(self)),
            r.0.version == old(self).compose->0.version,
            r.0.conda_path == old(self).compose->0.conda_path,
            r.0.links == old(self).compose->0.links,
            r.0.executables@ == old(self).compose->0.executables@.remove(r.1 as int),
            final(self).compose is None,
            only_compose_changed(*old(self), *final(self)),
    {
        let s = self.selected_executable.unwrap();
        let mut compose = self.compose.take().unwrap();
        let exe = compose.executables.remove(s);
        (compose, s, exe)
    }

    /// Puts an executable back where `take_selected` took the selected one from.
    fn put_selected(&mut self, compose: ComposeFile, s: usize, exe: Executable)
        requires
            s <= compose.executables@.len(),
        ensures
            final(self).compose matches Some(c) && c.version == compose.version && c.conda_path
                == compose.conda_path && c.links == compose.links && c.executables@ == compose.executables@.insert(
                s as int,
                exe,
            ),
            only_compose_changed(*old(self), *final(self)),
    {
        let mut compose = compose;
        compose.executables.insert(s, exe);
        self.compose = Some(compose);
    }

    /// The selected executable's type was set to a program of its own.
    pub fn set_custom_executable(&mut self)
        requires
            has_selected(*old(self)),
        ensures
            keeps_selection(*old(self), *final(self)),
            only_selected_changed(*old(self), *final(self)),
            selected_exe(*final(self)).inputs == selected_exe(*old(self)).inputs,
            selected_exe(*final(self)).outputs == selected_exe(*old(self)).outputs,
            selected_exe(*final(self)).exe_type == ExecutableType::CustomExecutable,
    {
        let ghost before = self.compose->0.executables@;
        let (compose, s, mut exe) = self.take_selected();
        exe.exe_type = ExecutableType::CustomExecutable;
        self.put_selected(compose, s, exe);
        proof {
            assert(before.remove(s as int).insert(s as int, exe) =~= before.update(s as int, exe));
        }
    }

    /// The selected executable's type was set to a Python script, or its Python
    /// environment to the system's: either way it runs on the system interpreter.
    pub fn set_python_system(&mut self)
        requires
            has_selected(*old(self)),
        ensures
            keeps_selection(*old(self), *final(self)),
            only_selected_changed(*old(self), *final(self)),
            selected_exe(*final(self)).inputs == selected_exe(*old(self)).inputs,
            selected_exe(*final(self)).outputs == selected_exe(*old(self)).outputs,
            selected_exe(*final(self)).exe_type == ExecutableType::PythonScript(PythonEnvironment::System),
    {
        let ghost before = self.compose->0.executables@;
        let (compose, s, mut exe) = self.take_selected();
        exe.exe_type = ExecutableType::PythonScript(PythonEnvironment::System);
        self.put_selected(compose, s, exe);
        proof {
            assert(before.remove(s as int).insert(s as int, exe) =~= before.update(s as int, exe));
        }
    }

    /// The selected script's environment was set to conda: the compose file's
    /// conda program, with no environment chosen yet.
    pub fn choose_conda(&mut self)
        requires
            has_selected(*old(self)),
        ensures
            keeps_selection(*old(self), *final(self)),
            only_selected_changed(*old(self), *final(self)),
            selected_exe(*final(self)).inputs == selected_exe(*old(self)).inputs,
            selected_exe(*final(self)).outputs == selected_exe(*old(self)).outputs,
            selected_exe(*final(self)).exe_type matches ExecutableType::PythonScript(PythonEnvironment::Conda { conda_path, conda_env })
                && conda_path == old(self).compose->0.conda_path && conda_env@ == Seq::<char>::empty(),
    {
        let ghost before = self.compose->0.executables@;
        let conda_path = self.compose.as_ref().unwrap().conda_path.clone();
        let (compose, s, mut exe) = self.take_selected();
        exe.exe_type = ExecutableType::PythonScript(PythonEnvironment::Conda { conda_path, conda_env: String::new() });
        self.put_selected(compose, s, exe);
        proof {
            assert(before.remove(s as int).insert(s as int, exe) =~= before.update(s as int, exe));
        }
    }

    /// The selected script's environment was set to a virtual environment, with
    /// no directory chosen yet.
    pub fn choose_virtualenv(&mut self)
        requires
            has_selected(*old(self)),
        ensures
            keeps_selection(*old(self), *final(self)),
            only_selected_changed(*old(self), *final(self)),
            selected_exe(*final(self)).inputs == selected_exe(*old(self)).inputs,
            selected_exe(*final(self)).outputs == selected_exe(*old(self)).outputs,
            selected_exe(*final(self)).exe_type matches ExecutableType::PythonScript(PythonEnvironment::VirtualEnv { venv })
                && venv@ == Seq::<char>::empty(),
    {
        let ghost before = self.compose->0.executables@;
        let (compose, s, mut exe) = self.take_selected();
        exe.exe_type = ExecutableType::PythonScript(PythonEnvironment::VirtualEnv { venv: String::new() });
        self.put_selected(compose, s, exe);
        proof {
            assert(before.remove(s as int).insert(s as int, exe) =~= before.update(s as int, exe));
        }
    }

    /// A detected conda environment was picked for the selected script.
    pub fn choose_detected_conda_env(&mut self, env: String)
        requires
            has_selected(*old(self)),
            selected_exe(*old(self)).exe_type matches ExecutableType::PythonScript(PythonEnvironment::Conda { .. }),
        ensures
            keeps_selection(*old(self), *final(self)),
            only_selected_changed(*old(self), *final(self)),
            selected_exe(*final(self)).inputs == selected_exe(*old(self)).inputs,
            selected_exe(*final(self)).outputs == selected_exe(*old(self)).outputs,
            selected_exe(*final(self)).exe_type == ExecutableType::PythonScript(
                (PythonEnvironment::Conda { conda_path: selected_exe(*old(self)).exe_type->0->conda_path, conda_env: env }),
            ),
    {
        let ghost before = self.compose->0.executables@;
        let (compose, s, mut exe) = self.take_selected();
        if let ExecutableType::PythonScript(PythonEnvironment::Conda { conda_path, .. }) = exe.exe_type {
            exe.exe_type = ExecutableType::PythonScript(PythonEnvironment::Conda { conda_path, conda_env: env });
        }
        self.put_selected(compose, s, exe);
        proof {
            assert(before.remove(s as int).insert(s as int, exe) =~= before.update(s as int, exe));
        }
    }

    /// "Add input": an input with a placeholder name is appended to the selected executable.
    pub fn add_input(&mut self)
        requires
            has_selected(*old(self)),
        ensures
            keeps_selection(*old(self), *final(self)),
            only_selected_changed(*old(self), *final(self)),
            selected_exe(*final(self)).exe_type == selected_exe(*old(self)).exe_type,
            selected_exe(*final(self)).outputs == selected_exe(*old(self)).outputs,
            selected_exe(*final(self)).inputs@.len() == selected_exe(*old(self)).inputs@.len() + 1,
            selected_exe(*final(self)).inputs@.drop_last() == selected_exe(*old(self)).inputs@,
            selected_exe(*final(self)).inputs@.last()@ == "很随便的输入"@,
    {
        let ghost before = self.compose->0.executables@;
        let (compose, s, mut exe) = self.take_selected();
        exe.inputs.push(string_of("很随便的输入"));
        self.put_selected(compose, s, exe);
        proof {
            assert(before.remove(s as int).insert(s as int, exe) =~= before.update(s as int, exe));
        }
    }

    /// "Add output": an output with a placeholder name is appended to the selected executable.
    pub fn add_output(&mut self)
        requires
            has_selected(*old(self)),
        ensures
            keeps_selection(*old(self), *final(self)),
            only_selected_changed(*old(self), *final(self)),
            selected_exe(*final(self)).exe_type == selected_exe(*old(self)).exe_type,
            selected_exe(*final(self)).inputs == selected_exe(*old(self)).inputs,
            selected_exe(*final(self)).outputs@.len() == selected_exe(*old(self)).outputs@.len() + 1,
            selected_exe(*final(self)).outputs@.drop_last() == selected_exe(*old(self)).outputs@,
            selected_exe(*final(self)).outputs@.last()@ == "某种输出"@,
    {
        let ghost before = self.compose->0.executables@;
        let (compose, s, mut exe) = self.take_selected();
        exe.outputs.push(string_of("某种输出"));
        self.put_selected(compose, s, exe);
        proof {
            assert(before.remove(s as int).insert(s as int, exe) =~= before.update(s as int, exe));
        }
    }
}

} // verus!
