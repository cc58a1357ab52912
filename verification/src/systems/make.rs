use vstd::prelude::*;
use crate::command::{Action, ActionV, Cmd, Event, Project, cmd_v, line_of, strs};
use crate::options::BuildOptions;
use crate::order::{sort_dedup, sorted_unique, strictly_sorted};
use crate::select::{select_option, Selection};
use crate::text::{chars_of, contains_char, find_char_from, first_index_of, lines, lines_of, strings_of, trim, trimmed, views};

verus! {

/// Projects built with a Makefile.
#[derive(Debug, Clone, Copy)]
pub struct MakeBuild;

/// The target a line of `make -pR` output names, if it names one: a line
/// that does not start with a dot, holds a colon and no equals sign names
/// the trimmed text before its first colon, unless that is empty or a
/// pattern (holds `%`).
pub open spec fn make_target(line: Seq<char>) -> Option<Seq<char>> {
    if !(line.len() > 0 && line[0] == '.') && line.contains(':') && !line.contains('=') {
        let t = trim(line.take(first_index_of(line, ':')));
        if t.len() > 0 && !t.contains('%') {
            Some(t)
        } else {
            None
        }
    } else {
        None
    }
}

/// The targets named by `lines`, in order, repeats included.
pub open spec fn make_candidates(ls: Seq<Seq<char>>) -> Seq<Seq<char>>
    decreases ls.len(),
{
    if ls.len() == 0 {
        seq![]
    } else {
        let rest = make_candidates(ls.drop_last());
        match make_target(ls.last()) {
            Some(t) => rest.push(t),
            None => rest,
        }
    }
}

/// The targets of a `make -pR` listing, sorted and without repeats.
pub open spec fn make_targets_v(out: Seq<char>) -> Seq<Seq<char>> {
    sorted_unique(make_candidates(lines(out)))
}

/// The target named by one line, if any.
fn target_of_line(line: &Vec<char>) -> (r: Option<Vec<char>>)
    ensures
        match r {
            Some(t) => make_target(line@) == Some(t@),
            None => make_target(line@) is None,
        },
{
    if line.len() > 0 && line[0] == '.' {
        return None;
    }
    if !contains_char(line, ':') || contains_char(line, '=') {
        return None;
    }
    let k = find_char_from(line, 0, ':');
    assert(line@.skip(0) == line@);
    let head = crate::text::copy_range(line, 0, k);
    assert(head@ == line@.take(first_index_of(line@, ':')));
    let t = trimmed(&head);
    if t.len() > 0 && !contains_char(&t, '%') {
        Some(t)
    } else {
        None
    }
}

/// The targets listed in `make -pR` output, sorted and without repeats.
pub fn make_targets(out: &str) -> (r: Vec<String>)
    ensures
        strs(r@) == make_targets_v(out@),
        strictly_sorted(strs(r@)),
{
    let text = chars_of(out);
    let ls = lines_of(&text);
    let mut found: Vec<Vec<char>> = Vec::new();
    let mut i: usize = 0;
    while i < ls.len()
        invariant
            i <= ls.len(),
            views(ls@) == lines(text@),
            views(found@) == make_candidates(views(ls@).take(i as int)),
        decreases ls.len() - i,
    {
        let ghost pre = views(ls@).take(i as int);
        let ghost next = views(ls@).take(i + 1);
        assert(next.drop_last() == pre);
        assert(next.last() == ls@[i as int]@);
        match target_of_line(&ls[i]) {
            Some(t) => {
                assert(views(found@.push(t)) == views(found@).push(t@));
                found.push(t);
            },
            None => {},
        }
        i = i + 1;
    }
    assert(views(ls@).take(ls.len() as int) == views(ls@));
    let sorted = sort_dedup(found);
    strings_of(&sorted)
}

/// Where a Makefile build stands between actions.
#[derive(Debug, PartialEq, Eq)]
pub enum MakeStage {
    /// Nothing done yet.
    Begin,
    /// The rule database was requested, to offer its targets.
    Listing,
    /// The user was asked for a target.
    Choosing,
    /// The chosen target is being built.
    Target(String),
    /// The default target is being built.
    Building,
    /// The `test` target is being built.
    Testing,
    /// The `run` target was attempted.
    Trying,
    /// The newest executable was looked for.
    Searching,
    /// The build is over.
    Over,
}

/// The build ends with nothing to remember.
pub open spec fn make_over(next: MakeStage, act: ActionV) -> bool {
    next is Over && act == ActionV::Finish(None)
}

/// `make <t>` for a chosen target.
pub open spec fn make_chose(t: Seq<char>, next: MakeStage, act: ActionV) -> bool {
    next matches MakeStage::Target(s) && s@ == t && act == ActionV::Run(cmd_v("make"@, seq![t]))
}

/// After the tests: `make run` on the terminal when running, else done.
pub open spec fn make_after_test(o: BuildOptions, next: MakeStage, act: ActionV) -> bool {
    if o.run {
        next is Trying && act == ActionV::Attempt(cmd_v("make"@, seq!["run"@]))
    } else {
        make_over(next, act)
    }
}

/// After the default target: `make test` when testing, then as above.
pub open spec fn make_after_build(o: BuildOptions, next: MakeStage, act: ActionV) -> bool {
    if o.test {
        next is Testing && act == ActionV::Run(cmd_v("make"@, seq!["test"@]))
    } else {
        make_after_test(o, next, act)
    }
}

/// One step of a Makefile build. With target selection, the targets of
/// `make -pR` are offered (one is taken without asking), the chosen target
/// is built and `make <target>` is remembered. Otherwise `make` builds the
/// default target, `make test` follows when testing, and when running
/// `make run` is tried on the terminal, falling back to the newest
/// executable in the directory. An event of the wrong kind ends the build.
pub open spec fn make_step_v(o: BuildOptions, st: MakeStage, ev: Event, next: MakeStage, act: ActionV) -> bool {
    match st {
        MakeStage::Begin => if o.select_command {
            next is Listing && act == ActionV::Capture(cmd_v("make"@, seq!["-pR"@]))
        } else {
            next is Building && act == ActionV::Run(cmd_v("make"@, seq![]))
        },
        MakeStage::Listing => match ev {
            Event::Text(out) => {
                let ts = make_targets_v(out@);
                if ts.len() == 0 {
                    next is Building && act == ActionV::Run(cmd_v("make"@, seq![]))
                } else if ts.len() == 1 {
                    make_chose(ts[0], next, act)
                } else {
                    next is Choosing && act == ActionV::Ask {
                        prompt: "Select make target"@,
                        options: ts,
                    }
                }
            },
            _ => make_over(next, act),
        },
        MakeStage::Choosing => match ev {
            Event::Text(t) => make_chose(t@, next, act),
            _ => make_over(next, act),
        },
        MakeStage::Target(t) => match ev {
            Event::Done => next is Over && act == ActionV::Finish(
                Some(line_of(cmd_v("make"@, seq![t@]))),
            ),
            _ => make_over(next, act),
        },
        MakeStage::Building => match ev {
            Event::Done => make_after_build(o, next, act),
            _ => make_over(next, act),
        },
        MakeStage::Testing => match ev {
            Event::Done => make_after_test(o, next, act),
            _ => make_over(next, act),
        },
        MakeStage::Trying => match ev {
            Event::Flag(ok) => if ok {
                make_over(next, act)
            } else {
                next is Searching && act == ActionV::RunNewestBinary("."@)
            },
            _ => make_over(next, act),
        },
        MakeStage::Searching => make_over(next, act),
        MakeStage::Over => make_over(next, act),
    }
}

fn make_chosen(t: String) -> (r: (MakeStage, Action))
    ensures
        make_chose(t@, r.0, r.1@),
{
    let c = Cmd::new1("make", t.as_str());
    (MakeStage::Target(t), Action::Run(c))
}

fn make_finish() -> (r: (MakeStage, Action))
    ensures
        make_over(r.0, r.1@),
{
    (MakeStage::Over, Action::Finish(None))
}

fn make_next_after_test(o: &BuildOptions) -> (r: (MakeStage, Action))
    ensures
        make_after_test(*o, r.0, r.1@),
{
    if o.run {
        (MakeStage::Trying, Action::Attempt(Cmd::new1("make", "run")))
    } else {
        make_finish()
    }
}

impl MakeBuild {
    pub fn name(&self) -> (r: &'static str)
        ensures
            r@ == "Makefile"@,
    {
        "Makefile"
    }

    pub fn description(&self) -> (r: &'static str)
        ensures
            r@ == "Build and run projects using Makefile"@,
    {
        "Build and run projects using Makefile"
    }

    /// A `Makefile` marks a Makefile project.
    pub fn detect(&self, p: &Project) -> (r: bool)
        ensures
            r == p@.present.contains("Makefile"@),
    {
        p.has("Makefile")
    }

    /// The next action of a build, given where it stands and what the last
    /// action gave.
    pub fn step(&self, o: &BuildOptions, st: MakeStage, ev: &Event) -> (r: (MakeStage, Action))
        ensures
            make_step_v(*o, st, *ev, r.0, r.1@),
    {
        match st {
            MakeStage::Begin => if o.select_command {
                (MakeStage::Listing, Action::Capture(Cmd::new1("make", "-pR")))
            } else {
                (MakeStage::Building, Action::Run(Cmd::new0("make")))
            },
            MakeStage::Listing => match ev {
                Event::Text(out) => {
                    let ts = make_targets(out.as_str());
                    let ghost tv = strs(ts@);
                    match select_option("Select make target", ts) {
                        Selection::Nothing => (MakeStage::Building, Action::Run(Cmd::new0("make"))),
                        Selection::Only(t) => make_chosen(t),
                        Selection::Ask { prompt, options } => (
                            MakeStage::Choosing,
                            Action::Ask { prompt, options },
                        ),
                    }
                },
                _ => make_finish(),
            },
            MakeStage::Choosing => match ev {
                Event::Text(t) => make_chosen(t.clone()),
                _ => make_finish(),
            },
            MakeStage::Target(t) => match ev {
                Event::Done => {
                    let c = Cmd::new1("make", t.as_str());
                    (MakeStage::Over, Action::Finish(Some(c.line())))
                },
                _ => make_finish(),
            },
            MakeStage::Building => match ev {
                Event::Done => if o.test {
                    (MakeStage::Testing, Action::Run(Cmd::new1("make", "test")))
                } else {
                    make_next_after_test(o)
                },
                _ => make_finish(),
            },
            MakeStage::Testing => match ev {
                Event::Done => make_next_after_test(o),
                _ => make_finish(),
            },
            MakeStage::Trying => match ev {
                Event::Flag(ok) => if *ok {
                    make_finish()
                } else {
                    (MakeStage::Searching, Action::RunNewestBinary(".".to_owned()))
                },
                _ => make_finish(),
            },
            MakeStage::Searching => make_finish(),
            MakeStage::Over => make_finish(),
        }
    }
}

proof fn lemma_make_candidates(ls: Seq<Seq<char>>, t: Seq<char>)
    ensures
        make_candidates(ls).contains(t) <==> exists|i: int|
            0 <= i < ls.len() && make_target(#[trigger] ls[i]) == Some(t),
    decreases ls.len(),
{
    if ls.len() > 0 {
        let p = ls.drop_last();
        lemma_make_candidates(p, t);
        let rest = make_candidates(p);
        if make_candidates(ls).contains(t) {
            let k = choose|k: int| 0 <= k < make_candidates(ls).len() && make_candidates(ls)[k] == t;
            match make_target(ls.last()) {
                Some(x) => {
                    if k < rest.len() {
                        assert(rest[k] == t);
                        let i = choose|i: int| 0 <= i < p.len() && make_target(#[trigger] p[i]) == Some(t);
                        assert(ls[i] == p[i]);
                    } else {
                        assert(make_target(ls[ls.len() - 1]) == Some(t));
                    }
                },
                None => {
                    assert(rest[k] == t);
                    let i = choose|i: int| 0 <= i < p.len() && make_target(#[trigger] p[i]) == Some(t);
                    assert(ls[i] == p[i]);
                },
            }
        }
        if exists|i: int| 0 <= i < ls.len() && make_target(#[trigger] ls[i]) == Some(t) {
            let i = choose|i: int| 0 <= i < ls.len() && make_target(#[trigger] ls[i]) == Some(t);
            if i < ls.len() - 1 {
                assert(p[i] == ls[i]);
                assert(rest.contains(t));
                let k = choose|k: int| 0 <= k < rest.len() && rest[k] == t;
                match make_target(ls.last()) {
                    Some(x) => {
                        assert(rest.push(x)[k] == t);
                    },
                    None => {},
                }
            } else {
                assert(make_target(ls.last()) == Some(t));
                assert(rest.push(t)[rest.len() as int] == t);
            }
        }
    }
}

/// The targets offered from a `make -pR` listing are exactly the names that
/// its rule lines declare: a line that does not start with a dot (special
/// targets) and holds a colon but no equals sign (which would make it a
/// variable assignment such as `CURDIR := ...`) declares the trimmed text
/// before its first colon, unless that text is empty or a pattern (`%`).
pub proof fn law_make_offers_rule_targets(out: Seq<char>, t: Seq<char>)
    ensures
        make_targets_v(out).contains(t) <==> exists|i: int|
            0 <= i < lines(out).len() && {
                let l = #[trigger] lines(out)[i];
                &&& !(l.len() > 0 && l[0] == '.')
                &&& l.contains(':')
                &&& !l.contains('=')
                &&& t == trim(l.take(first_index_of(l, ':')))
                &&& t.len() > 0
                &&& !t.contains('%')
            },
{
    let ls = lines(out);
    lemma_make_candidates(ls, t);
    crate::order::lemma_sorted_unique_items(make_candidates(ls));
    assert(make_targets_v(out).contains(t) <==> make_candidates(ls).to_set().contains(t));
}

/// No line holding an equals sign, such as a variable assignment of the
/// make database, ever yields a target.
pub proof fn law_make_assignments_are_not_targets(line: Seq<char>)
    requires
        line.contains('='),
    ensures
        make_target(line) is None,
{
}

} // verus!
