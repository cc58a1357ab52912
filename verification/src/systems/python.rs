use vstd::prelude::*;
use crate::command::{Action, ActionV, Cmd, Event, Project, cmd_v, line_of, strs};
use crate::options::BuildOptions;
use crate::select::{select_option, Selection};
use crate::text::{extension, has_extension};

verus! {

/// Python scripts and projects.
#[derive(Debug, Clone, Copy)]
pub struct PythonBuild;

/// The interpreter: the project's virtual environment if it has one, else
/// `python3`.
pub open spec fn python_exe(p: crate::command::ProjectV) -> Seq<char> {
    if p.present.contains(".venv"@) {
        if p.windows {
            ".venv\\Scripts\\python.exe"@
        } else {
            ".venv/bin/python"@
        }
    } else {
        "python3"@
    }
}

/// The script run by default: `main.py`, else `app.py`, else `main.py`.
pub open spec fn python_entry(p: crate::command::ProjectV) -> Seq<char> {
    if p.present.contains("main.py"@) {
        "main.py"@
    } else if p.present.contains("app.py"@) {
        "app.py"@
    } else {
        "main.py"@
    }
}

/// The names with the extension `py`, in order.
pub open spec fn py_names(ns: Seq<Seq<char>>) -> Seq<Seq<char>>
    decreases ns.len(),
{
    if ns.len() == 0 {
        seq![]
    } else {
        let rest = py_names(ns.drop_last());
        if extension(ns.last()) == Some("py"@) {
            rest.push(ns.last())
        } else {
            rest
        }
    }
}

/// The file names among `names` that are Python scripts, in order.
pub fn python_scripts(names: &Vec<String>) -> (r: Vec<String>)
    ensures
        strs(r@) == py_names(strs(names@)),
{
    let mut r: Vec<String> = Vec::new();
    let mut i: usize = 0;
    while i < names.len()
        invariant
            i <= names.len(),
            strs(r@) == py_names(strs(names@).take(i as int)),
        decreases names.len() - i,
    {
        let ghost next = strs(names@).take(i + 1);
        assert(next.drop_last() == strs(names@).take(i as int));
        assert(next.last() == names@[i as int]@);
        if has_extension(names[i].as_str(), "py") {
            let n = names[i].clone();
            assert(strs(r@.push(n)) == strs(r@).push(n@));
            r.push(n);
        }
        i = i + 1;
    }
    assert(strs(names@).take(names.len() as int) == strs(names@));
    r
}

/// Where a Python run stands between actions.
#[derive(Debug, PartialEq, Eq)]
pub enum PythonStage {
    /// Nothing done yet.
    Begin,
    /// The tests are running.
    Testing,
    /// The requirements are being installed.
    Installing,
    /// The directory was listed to offer its scripts; the default script.
    Listing(String),
    /// The user was asked for a script.
    Choosing,
    /// This script is running.
    Launching(String),
    /// The run is over.
    Over,
}

pub open spec fn python_over(next: PythonStage, act: ActionV) -> bool {
    next is Over && act == ActionV::Finish(None)
}

/// Run `script` with the interpreter on the terminal.
pub open spec fn python_launch(p: crate::command::ProjectV, script: Seq<char>, next: PythonStage, act: ActionV) -> bool {
    next matches PythonStage::Launching(s) && s@ == script && act == ActionV::Interactive(
        cmd_v(python_exe(p), seq![script]),
    )
}

/// After installing: run a script when running or selecting (listing the
/// directory first when selecting), else done.
pub open spec fn python_after_install(o: BuildOptions, p: crate::command::ProjectV, next: PythonStage, act: ActionV) -> bool {
    if o.run || o.select_command {
        if o.select_command {
            next matches PythonStage::Listing(d) && d@ == python_entry(p) && act
                == ActionV::ListDir("."@)
        } else {
            python_launch(p, python_entry(p), next, act)
        }
    } else {
        python_over(next, act)
    }
}

/// After the tests: install `requirements.txt` if there is one, then as
/// above.
pub open spec fn python_after_test(o: BuildOptions, p: crate::command::ProjectV, next: PythonStage, act: ActionV) -> bool {
    if p.present.contains("requirements.txt"@) {
        next is Installing && act == ActionV::Run(
            cmd_v(
                python_exe(p),
                seq!["-m"@, "pip"@, "install"@, "-r"@, "requirements.txt"@],
            ),
        )
    } else {
        python_after_install(o, p, next, act)
    }
}

/// One step of a Python run: `pytest` when testing, then the requirements,
/// then the script (offered from the directory's `.py` files when
/// selecting, one taken without asking) on the terminal, whose command is
/// remembered. An event of the wrong kind ends the run.
pub open spec fn python_step_v(
    o: BuildOptions,
    p: crate::command::ProjectV,
    st: PythonStage,
    ev: Event,
    next: PythonStage,
    act: ActionV,
) -> bool {
    match st {
        PythonStage::Begin => if o.test {
            next is Testing && act == ActionV::Run(cmd_v(python_exe(p), seq!["-m"@, "pytest"@]))
        } else {
            python_after_test(o, p, next, act)
        },
        PythonStage::Testing => match ev {
            Event::Done => python_after_test(o, p, next, act),
            _ => python_over(next, act),
        },
        PythonStage::Installing => match ev {
            Event::Done => python_after_install(o, p, next, act),
            _ => python_over(next, act),
        },
        PythonStage::Listing(d) => match ev {
            Event::Names(ns) => {
                let ss = py_names(strs(ns@));
                if ss.len() == 0 {
                    python_launch(p, d@, next, act)
                } else if ss.len() == 1 {
                    python_launch(p, ss[0], next, act)
                } else {
                    next is Choosing && act == ActionV::Ask {
                        prompt: "Select python script to run"@,
                        options: ss,
                    }
                }
            },
            _ => python_over(next, act),
        },
        PythonStage::Choosing => match ev {
            Event::Text(t) => python_launch(p, t@, next, act),
            _ => python_over(next, act),
        },
        PythonStage::Launching(s) => match ev {
            Event::Done => next is Over && act == ActionV::Finish(
                Some(line_of(cmd_v(python_exe(p), seq![s@]))),
            ),
            _ => python_over(next, act),
        },
        PythonStage::Over => python_over(next, act),
    }
}

fn python_finish() -> (r: (PythonStage, Action))
    ensures
        python_over(r.0, r.1@),
{
    (PythonStage::Over, Action::Finish(None))
}

impl PythonBuild {
    pub fn name(&self) -> (r: &'static str)
        ensures
            r@ == "Python"@,
    {
        "Python"
    }

    pub fn description(&self) -> (r: &'static str)
        ensures
            r@ == "Run Python scripts and projects"@,
    {
        "Run Python scripts and projects"
    }

    /// Requirements, a setup script, a project file or a usual entry script
    /// marks a Python project.
    pub fn detect(&self, p: &Project) -> (r: bool)
        ensures
            r == (p@.present.contains("requirements.txt"@) || p@.present.contains("setup.py"@)
                || p@.present.contains("pyproject.toml"@) || p@.present.contains("main.py"@)
                || p@.present.contains("app.py"@)),
    {
        p.has("requirements.txt") || p.has("setup.py") || p.has("pyproject.toml") || p.has(
            "main.py",
        ) || p.has("app.py")
    }

    /// The interpreter to use in `p`.
    pub fn interpreter(&self, p: &Project) -> (r: &'static str)
        ensures
            r@ == python_exe(p@),
    {
        if p.has(".venv") {
            if p.windows {
                ".venv\\Scripts\\python.exe"
            } else {
                ".venv/bin/python"
            }
        } else {
            "python3"
        }
    }

    fn launch(&self, p: &Project, script: String) -> (r: (PythonStage, Action))
        ensures
            python_launch(p@, script@, r.0, r.1@),
    {
        let c = Cmd::new1(self.interpreter(p), script.as_str());
        (PythonStage::Launching(script), Action::Interactive(c))
    }

    fn after_install(&self, o: &BuildOptions, p: &Project) -> (r: (PythonStage, Action))
        ensures
            python_after_install(*o, p@, r.0, r.1@),
    {
        if o.run || o.select_command {
            let entry = if p.has("main.py") {
                "main.py"
            } else if p.has("app.py") {
                "app.py"
            } else {
                "main.py"
            };
            if o.select_command {
                (PythonStage::Listing(entry.to_owned()), Action::ListDir(".".to_owned()))
            } else {
                self.launch(p, entry.to_owned())
            }
        } else {
            python_finish()
        }
    }

    fn after_test(&self, o: &BuildOptions, p: &Project) -> (r: (PythonStage, Action))
        ensures
            python_after_test(*o, p@, r.0, r.1@),
    {
        if p.has("requirements.txt") {
            let c = Cmd::new5(self.interpreter(p), "-m", "pip", "install", "-r", "requirements.txt");
            (PythonStage::Installing, Action::Run(c))
        } else {
            self.after_install(o, p)
        }
    }

    /// The next action of a run, given where it stands and what the last
    /// action gave.
    pub fn step(&self, o: &BuildOptions, p: &Project, st: PythonStage, ev: &Event) -> (r: (
        PythonStage,
        Action,
    ))
        ensures
            python_step_v(*o, p@, st, *ev, r.0, r.1@),
    {
        match st {
            PythonStage::Begin => if o.test {
                (PythonStage::Testing, Action::Run(Cmd::new2(self.interpreter(p), "-m", "pytest")))
            } else {
                self.after_test(o, p)
            },
            PythonStage::Testing => match ev {
                Event::Done => self.after_test(o, p),
                _ => python_finish(),
            },
            PythonStage::Installing => match ev {
                Event::Done => self.after_install(o, p),
                _ => python_finish(),
            },
            PythonStage::Listing(d) => match ev {
                Event::Names(ns) => {
                    let scripts = python_scripts(ns);
                    match select_option("Select python script to run", scripts) {
                        Selection::Nothing => self.launch(p, d),
                        Selection::Only(t) => self.launch(p, t),
                        Selection::Ask { prompt, options } => (
                            PythonStage::Choosing,
                            Action::Ask { prompt, options },
                        ),
                    }
                },
                _ => python_finish(),
            },
            PythonStage::Choosing => match ev {
                Event::Text(t) => self.launch(p, t.clone()),
                _ => python_finish(),
            },
            PythonStage::Launching(s) => match ev {
                Event::Done => {
                    let c = Cmd::new1(self.interpreter(p), s.as_str());
                    (PythonStage::Over, Action::Finish(Some(c.line())))
                },
                _ => python_finish(),
            },
            PythonStage::Over => python_finish(),
        }
    }
}

} // verus!
