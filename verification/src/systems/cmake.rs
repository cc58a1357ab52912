use vstd::prelude::*;
use crate::command::{Action, ActionV, Cmd, Event, Project, cmd_v, line_of, strs};
use crate::options::BuildOptions;
use crate::order::{sort_dedup, sorted_unique, strictly_sorted};
use crate::select::{select_option, Selection};
use crate::text::{
    chars_of, contains_chars, contains_seq, copy_range, find_seq_from, first_match_from,
    lemma_first_match_from, lines, lines_of, starts_with_chars, strings_of, trim, trimmed, views,
};

verus! {

/// CMake projects, built out of source in `build`.
#[derive(Debug, Clone, Copy)]
pub struct CMakeBuild;

/// The text of a line between its first and second `... ` (or the end), as
/// `line.split("... ").nth(1)` gives it; empty when there is no `... `.
pub open spec fn after_dots(l: Seq<char>) -> Seq<char> {
    let p = "... "@;
    let m0 = first_match_from(l, p, 0);
    if m0 + p.len() > l.len() {
        seq![]
    } else {
        let s = m0 + p.len();
        l.subrange(s, first_match_from(l, p, s))
    }
}

/// The heading after which some generators list one target per line.
pub open spec fn targets_heading() -> Seq<char> {
    "The following targets are available:"@
}

/// The targets named by the lines of `cmake --build build --target help`:
/// a line holding `... ` names the trimmed text after it; after the
/// heading, any other non-blank line not starting with `---` names itself
/// trimmed. `listing` tells whether the heading was seen.
pub open spec fn cmake_candidates(ls: Seq<Seq<char>>, listing: bool) -> Seq<Seq<char>>
    decreases ls.len(),
{
    if ls.len() == 0 {
        seq![]
    } else {
        let l = ls[0];
        let rest = ls.drop_first();
        if contains_seq(l, "... "@) {
            let t = trim(after_dots(l));
            (if t.len() > 0 {
                seq![t]
            } else {
                seq![]
            }) + cmake_candidates(rest, listing)
        } else if contains_seq(l, targets_heading()) {
            cmake_candidates(rest, true)
        } else if listing {
            let t = trim(l);
            (if t.len() > 0 && !"---"@.is_prefix_of(t) {
                seq![t]
            } else {
                seq![]
            }) + cmake_candidates(rest, listing)
        } else {
            cmake_candidates(rest, listing)
        }
    }
}

/// The targets of the help listing, sorted and without repeats.
pub open spec fn cmake_targets_v(out: Seq<char>) -> Seq<Seq<char>> {
    sorted_unique(cmake_candidates(lines(out), false))
}

/// The text between the first and second `... ` of a line.
fn after_dots_of(l: &Vec<char>, dots: &Vec<char>) -> (r: Vec<char>)
    requires
        dots@ == "... "@,
    ensures
        r@ == after_dots(l@),
{
    let m0 = find_seq_from(l, dots, 0);
    proof {
        lemma_first_match_from(l@, dots@, 0);
    }
    if m0 > l.len() || dots.len() > l.len() - m0 {
        return Vec::new();
    }
    let s = m0 + dots.len();
    let m1 = find_seq_from(l, dots, s);
    proof {
        lemma_first_match_from(l@, dots@, s as int);
    }
    copy_range(l, s, m1)
}

/// The targets listed in the help output, sorted and without repeats.
pub fn cmake_targets(out: &str) -> (r: Vec<String>)
    ensures
        strs(r@) == cmake_targets_v(out@),
        strictly_sorted(strs(r@)),
{
    let text = chars_of(out);
    let ls = lines_of(&text);
    let dots = chars_of("... ");
    let heading = chars_of("The following targets are available:");
    let rule = chars_of("---");
    let mut found: Vec<Vec<char>> = Vec::new();
    let mut listing = false;
    let mut i: usize = 0;
    assert(views(ls@).skip(0) == views(ls@));
    while i < ls.len()
        invariant
            i <= ls.len(),
            dots@ == "... "@,
            heading@ == targets_heading(),
            rule@ == "---"@,
            views(ls@) == lines(text@),
            views(found@) + cmake_candidates(views(ls@).skip(i as int), listing)
                == cmake_candidates(lines(text@), false),
        decreases ls.len() - i,
    {
        let ghost rest = views(ls@).skip(i as int);
        assert(rest[0] == ls@[i as int]@);
        assert(rest.drop_first() == views(ls@).skip(i + 1));
        let l = &ls[i];
        if contains_chars(l, &dots) {
            let piece = after_dots_of(l, &dots);
            let t = trimmed(&piece);
            if t.len() > 0 {
                assert(views(found@.push(t)) == views(found@) + seq![t@]);
                found.push(t);
            } else {
                assert(seq![] + cmake_candidates(views(ls@).skip(i + 1), listing) == cmake_candidates(
                    views(ls@).skip(i + 1),
                    listing,
                ));
            }
        } else if contains_chars(l, &heading) {
            listing = true;
        } else if listing {
            let t = trimmed(l);
            if t.len() > 0 && !starts_with_chars(&t, &rule) {
                assert(views(found@.push(t)) == views(found@) + seq![t@]);
                found.push(t);
            } else {
                assert(seq![] + cmake_candidates(views(ls@).skip(i + 1), listing) == cmake_candidates(
                    views(ls@).skip(i + 1),
                    listing,
                ));
            }
        }
        i = i + 1;
    }
    assert(views(ls@).skip(ls.len() as int).len() == 0);
    assert(views(found@) + seq![] == views(found@));
    let sorted = sort_dedup(found);
    strings_of(&sorted)
}

/// Where a CMake build stands between actions.
#[derive(Debug, PartialEq, Eq)]
pub enum CMakeStage {
    /// Nothing done yet.
    Begin,
    /// The build directory is being created.
    Creating,
    /// The build tree is being configured.
    Configuring,
    /// The target list was requested.
    Listing,
    /// The user was asked for a target.
    Choosing,
    /// The chosen target is being built.
    Target(String),
    /// All targets are being built.
    Building,
    /// The newest executable was looked for.
    Searching,
    /// The build is over.
    Over,
}

/// The build ends with nothing to remember.
pub open spec fn cmake_over(next: CMakeStage, act: ActionV) -> bool {
    next is Over && act == ActionV::Finish(None)
}

/// Configure the build tree in `build` for the release or debug type.
pub open spec fn cmake_configure(o: BuildOptions, next: CMakeStage, act: ActionV) -> bool {
    next is Configuring && act == ActionV::Run(
        cmd_v(
            "cmake"@,
            seq![
                "-B"@,
                "build"@,
                if o.release {
                    "-DCMAKE_BUILD_TYPE=Release"@
                } else {
                    "-DCMAKE_BUILD_TYPE=Debug"@
                },
            ],
        ),
    )
}

/// Build everything in `build`.
pub open spec fn cmake_build_all(next: CMakeStage, act: ActionV) -> bool {
    next is Building && act == ActionV::Run(cmd_v("cmake"@, seq!["--build"@, "build"@]))
}

/// Build one chosen target.
pub open spec fn cmake_target_cmd(t: Seq<char>) -> crate::command::CmdV {
    cmd_v("cmake"@, seq!["--build"@, "build"@, "--target"@, t])
}

pub open spec fn cmake_chose(t: Seq<char>, next: CMakeStage, act: ActionV) -> bool {
    next matches CMakeStage::Target(s) && s@ == t && act == ActionV::Run(cmake_target_cmd(t))
}

/// One step of a CMake build: create `build` if it is missing, configure
/// it, then either offer the targets of the help listing (one is taken
/// without asking), build the chosen one and remember its command, or build
/// everything and, when running, offer the newest executable under
/// `build`. An event of the wrong kind ends the build.
pub open spec fn cmake_step_v(
    o: BuildOptions,
    present: Seq<Seq<char>>,
    st: CMakeStage,
    ev: Event,
    next: CMakeStage,
    act: ActionV,
) -> bool {
    match st {
        CMakeStage::Begin => if !present.contains("build"@) {
            next is Creating && act == ActionV::MakeDir("build"@)
        } else {
            cmake_configure(o, next, act)
        },
        CMakeStage::Creating => match ev {
            Event::Done => cmake_configure(o, next, act),
            _ => cmake_over(next, act),
        },
        CMakeStage::Configuring => match ev {
            Event::Done => if o.select_command {
                next is Listing && act == ActionV::Capture(
                    cmd_v("cmake"@, seq!["--build"@, "build"@, "--target"@, "help"@]),
                )
            } else {
                cmake_build_all(next, act)
            },
            _ => cmake_over(next, act),
        },
        CMakeStage::Listing => match ev {
            Event::Text(out) => {
                let ts = cmake_targets_v(out@);
                if ts.len() == 0 {
                    cmake_build_all(next, act)
                } else if ts.len() == 1 {
                    cmake_chose(ts[0], next, act)
                } else {
                    next is Choosing && act == ActionV::Ask {
                        prompt: "Select CMake target"@,
                        options: ts,
                    }
                }
            },
            _ => cmake_over(next, act),
        },
        CMakeStage::Choosing => match ev {
            Event::Text(t) => cmake_chose(t@, next, act),
            _ => cmake_over(next, act),
        },
        CMakeStage::Target(t) => match ev {
            Event::Done => next is Over && act == ActionV::Finish(
                Some(line_of(cmake_target_cmd(t@))),
            ),
            _ => cmake_over(next, act),
        },
        CMakeStage::Building => match ev {
            Event::Done => if o.run {
                next is Searching && act == ActionV::RunNewestBinary("build"@)
            } else {
                cmake_over(next, act)
            },
            _ => cmake_over(next, act),
        },
        CMakeStage::Searching => cmake_over(next, act),
        CMakeStage::Over => cmake_over(next, act),
    }
}

fn cmake_finish() -> (r: (CMakeStage, Action))
    ensures
        cmake_over(r.0, r.1@),
{
    (CMakeStage::Over, Action::Finish(None))
}

fn cmake_configure_now(o: &BuildOptions) -> (r: (CMakeStage, Action))
    ensures
        cmake_configure(*o, r.0, r.1@),
{
    let build_type = if o.release {
        "-DCMAKE_BUILD_TYPE=Release"
    } else {
        "-DCMAKE_BUILD_TYPE=Debug"
    };
    (CMakeStage::Configuring, Action::Run(Cmd::new3("cmake", "-B", "build", build_type)))
}

fn cmake_build_all_now() -> (r: (CMakeStage, Action))
    ensures
        cmake_build_all(r.0, r.1@),
{
    (CMakeStage::Building, Action::Run(Cmd::new2("cmake", "--build", "build")))
}

fn cmake_chosen(t: String) -> (r: (CMakeStage, Action))
    ensures
        cmake_chose(t@, r.0, r.1@),
{
    let c = Cmd::new4("cmake", "--build", "build", "--target", t.as_str());
    (CMakeStage::Target(t), Action::Run(c))
}

impl CMakeBuild {
    pub fn name(&self) -> (r: &'static str)
        ensures
            r@ == "CMake"@,
    {
        "CMake"
    }

    pub fn description(&self) -> (r: &'static str)
        ensures
            r@ == "Build and run C/C++ projects using CMake"@,
    {
        "Build and run C/C++ projects using CMake"
    }

    /// A `CMakeLists.txt` marks a CMake project.
    pub fn detect(&self, p: &Project) -> (r: bool)
        ensures
            r == p@.present.contains("CMakeLists.txt"@),
    {
        p.has("CMakeLists.txt")
    }

    /// The next action of a build, given where it stands and what the last
    /// action gave.
    pub fn step(&self, o: &BuildOptions, p: &Project, st: CMakeStage, ev: &Event) -> (r: (
        CMakeStage,
        Action,
    ))
        ensures
            cmake_step_v(*o, p@.present, st, *ev, r.0, r.1@),
    {
        match st {
            CMakeStage::Begin => if !p.has("build") {
                (CMakeStage::Creating, Action::MakeDir("build".to_owned()))
            } else {
                cmake_configure_now(o)
            },
            CMakeStage::Creating => match ev {
                Event::Done => cmake_configure_now(o),
                _ => cmake_finish(),
            },
            CMakeStage::Configuring => match ev {
                Event::Done => if o.select_command {
                    (
                        CMakeStage::Listing,
                        Action::Capture(Cmd::new4("cmake", "--build", "build", "--target", "help")),
                    )
                } else {
                    cmake_build_all_now()
                },
                _ => cmake_finish(),
            },
            CMakeStage::Listing => match ev {
                Event::Text(out) => {
                    let ts = cmake_targets(out.as_str());
                    match select_option("Select CMake target", ts) {
                        Selection::Nothing => cmake_build_all_now(),
                        Selection::Only(t) => cmake_chosen(t),
                        Selection::Ask { prompt, options } => (
                            CMakeStage::Choosing,
                            Action::Ask { prompt, options },
                        ),
                    }
                },
                _ => cmake_finish(),
            },
            CMakeStage::Choosing => match ev {
                Event::Text(t) => cmake_chosen(t.clone()),
                _ => cmake_finish(),
            },
            CMakeStage::Target(t) => match ev {
                Event::Done => {
                    let c = Cmd::new4("cmake", "--build", "build", "--target", t.as_str());
                    (CMakeStage::Over, Action::Finish(Some(c.line())))
                },
                _ => cmake_finish(),
            },
            CMakeStage::Building => match ev {
                Event::Done => if o.run {
                    (CMakeStage::Searching, Action::RunNewestBinary("build".to_owned()))
                } else {
                    cmake_finish()
                },
                _ => cmake_finish(),
            },
            CMakeStage::Searching => cmake_finish(),
            CMakeStage::Over => cmake_finish(),
        }
    }
}

/// The build tree is configured with `cmake -B build` and the build type
/// that the release option asks for: `Release` for a release build, `Debug`
/// otherwise. This is the first action when `build` already exists, and the
/// one after creating it.
pub proof fn law_cmake_configure_type(
    o: BuildOptions,
    present: Seq<Seq<char>>,
    st: CMakeStage,
    ev: Event,
    next: CMakeStage,
    act: ActionV,
)
    requires
        ((st is Begin) && present.contains("build"@)) || ((st is Creating) && (ev is Done)),
        cmake_step_v(o, present, st, ev, next, act),
    ensures
        next is Configuring,
        o.release ==> act == ActionV::Run(
            cmd_v("cmake"@, seq!["-B"@, "build"@, "-DCMAKE_BUILD_TYPE=Release"@]),
        ),
        !o.release ==> act == ActionV::Run(
            cmd_v("cmake"@, seq!["-B"@, "build"@, "-DCMAKE_BUILD_TYPE=Debug"@]),
        ),
{
}

/// A missing `build` directory is created before anything else.
pub proof fn law_cmake_creates_build_dir(
    o: BuildOptions,
    present: Seq<Seq<char>>,
    ev: Event,
    next: CMakeStage,
    act: ActionV,
)
    requires
        !present.contains("build"@),
        cmake_step_v(o, present, CMakeStage::Begin, ev, next, act),
    ensures
        next is Creating,
        act == ActionV::MakeDir("build"@),
{
}

} // verus!
