use vstd::prelude::*;

verus! {

/// The text views of a sequence of strings.
pub open spec fn strs(v: Seq<String>) -> Seq<Seq<char>> {
    v.map_values(|s: String| s@)
}

/// The text views of a sequence of string slices.
pub open spec fn slices(v: Seq<&str>) -> Seq<Seq<char>> {
    v.map_values(|s: &str| s@)
}

/// A program and its arguments.
#[derive(Debug, PartialEq, Eq)]
pub struct Cmd {
    pub program: String,
    pub args: Vec<String>,
}

/// What a command is: its program and its arguments as text.
pub struct CmdV {
    pub program: Seq<char>,
    pub args: Seq<Seq<char>>,
}

impl View for Cmd {
    type V = CmdV;

    open spec fn view(&self) -> CmdV {
        CmdV { program: self.program@, args: strs(self.args@) }
    }
}

/// The command `program args...`.
pub open spec fn cmd_v(program: Seq<char>, args: Seq<Seq<char>>) -> CmdV {
    CmdV { program, args }
}

/// `words` joined by single spaces.
pub open spec fn joined(words: Seq<Seq<char>>) -> Seq<char>
    decreases words.len(),
{
    if words.len() == 0 {
        seq![]
    } else if words.len() == 1 {
        words[0]
    } else {
        joined(words.drop_last()) + " "@ + words.last()
    }
}

/// The command written out as one line: program and arguments separated by
/// single spaces.
pub open spec fn line_of(c: CmdV) -> Seq<char> {
    joined(seq![c.program] + c.args)
}

/// Copies of a list of string slices.
pub fn owned_all(v: &[&str]) -> (r: Vec<String>)
    ensures
        strs(r@) == slices(v@),
{
    let mut r: Vec<String> = Vec::new();
    let mut i: usize = 0;
    while i < v.len()
        invariant
            i <= v.len(),
            strs(r@) == slices(v@).take(i as int),
        decreases v.len() - i,
    {
        let s = v[i].to_owned();
        proof {
            assert(strs(r@.push(s)) == strs(r@).push(s@));
            assert(slices(v@).take(i + 1) == slices(v@).take(i as int).push(v@[i as int]@));
        }
        r.push(s);
        i = i + 1;
    }
    assert(slices(v@).take(v.len() as int) == slices(v@));
    r
}

impl Cmd {
    /// The command `program args...`.
    pub fn of(program: &str, args: &[&str]) -> (r: Cmd)
        ensures
            r@ == cmd_v(program@, slices(args@)),
    {
        Cmd { program: program.to_owned(), args: owned_all(args) }
    }

    /// The command `program` with no arguments.
    pub fn new0(program: &str) -> (r: Cmd)
        ensures
            r@ == cmd_v(program@, seq![]),
    {
        let r = Cmd { program: program.to_owned(), args: Vec::new() };
        assert(strs(r.args@) == Seq::<Seq<char>>::empty());
        r
    }

    /// The command `program a`.
    pub fn new1(program: &str, a: &str) -> (r: Cmd)
        ensures
            r@ == cmd_v(program@, seq![a@]),
    {
        let v = [a];
        assert(slices(v@) == seq![a@]);
        Cmd::of(program, &v)
    }

    /// The command `program a b`.
    pub fn new2(program: &str, a: &str, b: &str) -> (r: Cmd)
        ensures
            r@ == cmd_v(program@, seq![a@, b@]),
    {
        let v = [a, b];
        assert(slices(v@) == seq![a@, b@]);
        Cmd::of(program, &v)
    }

    /// The command `program a b c`.
    pub fn new3(program: &str, a: &str, b: &str, c: &str) -> (r: Cmd)
        ensures
            r@ == cmd_v(program@, seq![a@, b@, c@]),
    {
        let v = [a, b, c];
        assert(slices(v@) == seq![a@, b@, c@]);
        Cmd::of(program, &v)
    }

    /// The command `program a b c d`.
    pub fn new4(program: &str, a: &str, b: &str, c: &str, d: &str) -> (r: Cmd)
        ensures
            r@ == cmd_v(program@, seq![a@, b@, c@, d@]),
    {
        let v = [a, b, c, d];
        assert(slices(v@) == seq![a@, b@, c@, d@]);
        Cmd::of(program, &v)
    }

    /// The command `program a b c d e`.
    pub fn new5(program: &str, a: &str, b: &str, c: &str, d: &str, e: &str) -> (r: Cmd)
        ensures
            r@ == cmd_v(program@, seq![a@, b@, c@, d@, e@]),
    {
        let v = [a, b, c, d, e];
        assert(slices(v@) == seq![a@, b@, c@, d@, e@]);
        Cmd::of(program, &v)
    }

    /// The command `program` followed by owned arguments.
    pub fn with(program: &str, args: Vec<String>) -> (r: Cmd)
        ensures
            r@ == cmd_v(program@, strs(args@)),
    {
        Cmd { program: program.to_owned(), args }
    }

    /// The command written out as one line.
    pub fn line(&self) -> (r: String)
        ensures
            r@ == line_of(self@),
    {
        let mut r = self.program.clone();
        let mut i: usize = 0;
        let ghost all = seq![self.program@] + strs(self.args@);
        assert(all.take(1) == seq![self.program@]);
        while i < self.args.len()
            invariant
                i <= self.args.len(),
                all == seq![self.program@] + strs(self.args@),
                r@ == joined(all.take(i + 1)),
            decreases self.args.len() - i,
        {
            r.append(" ");
            r.append(self.args[i].as_str());
            proof {
                assert(all.take(i + 2).drop_last() == all.take(i + 1));
                assert(all.take(i + 2).last() == self.args@[i as int]@);
            }
            i = i + 1;
        }
        assert(all.take(self.args.len() + 1) == all);
        r
    }
}

/// Which files of interest exist in the project directory, and on which
/// kind of platform the tool runs.
#[derive(Debug, PartialEq, Eq)]
pub struct Project {
    pub present: Vec<String>,
    pub windows: bool,
}

/// What is known of a project: the names that exist, and the platform.
pub struct ProjectV {
    pub present: Seq<Seq<char>>,
    pub windows: bool,
}

impl View for Project {
    type V = ProjectV;

    open spec fn view(&self) -> ProjectV {
        ProjectV { present: strs(self.present@), windows: self.windows }
    }
}

impl Project {
    /// Whether `name` exists in the project directory.
    pub fn has(&self, name: &str) -> (r: bool)
        ensures
            r == self@.present.contains(name@),
    {
        let n = name.to_owned();
        let mut i: usize = 0;
        while i < self.present.len()
            invariant
                i <= self.present.len(),
                n@ == name@,
                forall|j: int| 0 <= j < i ==> strs(self.present@)[j] != name@,
            decreases self.present.len() - i,
        {
            if self.present[i] == n {
                assert(strs(self.present@)[i as int] == name@);
                return true;
            }
            i = i + 1;
        }
        false
    }
}

/// The names whose existence decides detection and commands.
pub open spec fn marker_names() -> Seq<Seq<char>> {
    seq![
        "Cargo.toml"@,
        "Makefile"@,
        "justfile"@,
        "Justfile"@,
        "CMakeLists.txt"@,
        "build"@,
        "package.json"@,
        "bun.lockb"@,
        "bun.lock"@,
        "bunfig.toml"@,
        "pnpm-lock.yaml"@,
        "yarn.lock"@,
        "package-lock.json"@,
        "index.js"@,
        "main.js"@,
        "main.ts"@,
        "index.ts"@,
        "server.js"@,
        "deno.json"@,
        "deno.jsonc"@,
        "go.mod"@,
        "pyproject.toml"@,
        "requirements.txt"@,
        "setup.py"@,
        "main.py"@,
        "app.py"@,
        ".venv"@,
        "Package.swift"@,
        "pubspec.yaml"@,
        "Dockerfile"@,
        "pom.xml"@,
        "build.gradle"@,
        "build.gradle.kts"@,
        "build.zig"@,
    ]
}

/// The names whose existence decides detection and commands; the program
/// checks each of them before asking the library anything.
pub fn marker_files() -> (r: Vec<&'static str>)
    ensures
        slices(r@) == marker_names(),
{
    let r = vec![
        "Cargo.toml",
        "Makefile",
        "justfile",
        "Justfile",
        "CMakeLists.txt",
        "build",
        "package.json",
        "bun.lockb",
        "bun.lock",
        "bunfig.toml",
        "pnpm-lock.yaml",
        "yarn.lock",
        "package-lock.json",
        "index.js",
        "main.js",
        "main.ts",
        "index.ts",
        "server.js",
        "deno.json",
        "deno.jsonc",
        "go.mod",
        "pyproject.toml",
        "requirements.txt",
        "setup.py",
        "main.py",
        "app.py",
        ".venv",
        "Package.swift",
        "pubspec.yaml",
        "Dockerfile",
        "pom.xml",
        "build.gradle",
        "build.gradle.kts",
        "build.zig",
    ];
    assert(slices(r@) == marker_names());
    r
}

/// One thing for the program to do on behalf of a build system.
#[derive(Debug, PartialEq, Eq)]
pub enum Action {
    /// Run a command through the shell helper; a failure ends the build.
    Run(Cmd),
    /// Run a command attached to the terminal; a failure ends the build.
    Interactive(Cmd),
    /// Run a command attached to the terminal and report whether it succeeded.
    Attempt(Cmd),
    /// Run a command and report whether it succeeded.
    Probe(Cmd),
    /// Run a command and report its output (empty when it fails).
    Capture(Cmd),
    /// Read a file and report its contents, if it could be read.
    ReadFile(String),
    /// List the file names in a directory; a failure ends the build.
    ListDir(String),
    /// Create a directory; a failure ends the build.
    MakeDir(String),
    /// Ask the user to pick one of several options; cancelling ends the build.
    Ask { prompt: String, options: Vec<String> },
    /// Find the most recently built executable under a directory and offer
    /// to run it.
    RunNewestBinary(String),
    /// The build is over; a command to remember for the directory, if any.
    Finish(Option<String>),
}

/// What an action is, over text.
pub enum ActionV {
    Run(CmdV),
    Interactive(CmdV),
    Attempt(CmdV),
    Probe(CmdV),
    Capture(CmdV),
    ReadFile(Seq<char>),
    ListDir(Seq<char>),
    MakeDir(Seq<char>),
    Ask { prompt: Seq<char>, options: Seq<Seq<char>> },
    RunNewestBinary(Seq<char>),
    Finish(Option<Seq<char>>),
}

/// The text of an optional string.
pub open spec fn opt_v(o: Option<String>) -> Option<Seq<char>> {
    match o {
        Some(s) => Some(s@),
        None => None,
    }
}

impl View for Action {
    type V = ActionV;

    open spec fn view(&self) -> ActionV {
        match self {
            Action::Run(c) => ActionV::Run(c@),
            Action::Interactive(c) => ActionV::Interactive(c@),
            Action::Attempt(c) => ActionV::Attempt(c@),
            Action::Probe(c) => ActionV::Probe(c@),
            Action::Capture(c) => ActionV::Capture(c@),
            Action::ReadFile(s) => ActionV::ReadFile(s@),
            Action::ListDir(s) => ActionV::ListDir(s@),
            Action::MakeDir(s) => ActionV::MakeDir(s@),
            Action::Ask { prompt, options } => ActionV::Ask {
                prompt: prompt@,
                options: strs(options@),
            },
            Action::RunNewestBinary(s) => ActionV::RunNewestBinary(s@),
            Action::Finish(o) => ActionV::Finish(opt_v(*o)),
        }
    }
}

/// What the program reports back after performing an action.
#[derive(Debug, PartialEq, Eq)]
pub enum Event {
    /// Nothing has been done yet.
    Start,
    /// The action completed.
    Done,
    /// Whether a probed or attempted command succeeded.
    Flag(bool),
    /// Captured output, or the option the user picked.
    Text(String),
    /// The contents of a file, if it could be read.
    File(Option<String>),
    /// The file names in a directory.
    Names(Vec<String>),
}

} // verus!
