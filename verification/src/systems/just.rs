use vstd::prelude::*;
use crate::command::{Action, ActionV, Cmd, Event, Project, cmd_v, line_of, strs};
use crate::options::{BuildOptions, verb_of};
use crate::select::{select_option, Selection};
use crate::text::{chars_of, strings_of, words, words_of};

verus! {

/// Projects driven by the `just` command runner.
#[derive(Debug, Clone, Copy)]
pub struct JustBuild;

/// The recipes of `just --summary`: its blank-separated words.
pub fn recipes_of(out: &str) -> (r: Vec<String>)
    ensures
        strs(r@) == words(out@),
{
    let text = chars_of(out);
    let ws = words_of(&text);
    strings_of(&ws)
}

/// Where a `just` build stands between actions.
#[derive(Debug, PartialEq, Eq)]
pub enum JustStage {
    /// Nothing done yet.
    Begin,
    /// The recipe summary was requested.
    Listing,
    /// The user was asked for a recipe.
    Choosing,
    /// The chosen recipe is running.
    Recipe(String),
    /// The recipe named by the action word is running.
    Running,
    /// The build is over.
    Over,
}

pub open spec fn just_over(next: JustStage, act: ActionV) -> bool {
    next is Over && act == ActionV::Finish(None)
}

/// Run the recipe named like the action word.
pub open spec fn just_default(o: BuildOptions, next: JustStage, act: ActionV) -> bool {
    next is Running && act == ActionV::Run(cmd_v("just"@, seq![verb_of(o)]))
}

pub open spec fn just_chose(t: Seq<char>, next: JustStage, act: ActionV) -> bool {
    next matches JustStage::Recipe(s) && s@ == t && act == ActionV::Run(cmd_v("just"@, seq![t]))
}

/// One step of a `just` build: with recipe selection, the recipes of
/// `just --summary` are offered (one is taken without asking), the chosen
/// recipe runs and `just <recipe>` is remembered; otherwise the recipe
/// named like the action word runs. An event of the wrong kind ends the
/// build.
pub open spec fn just_step_v(o: BuildOptions, st: JustStage, ev: Event, next: JustStage, act: ActionV) -> bool {
    match st {
        JustStage::Begin => if o.select_command {
            next is Listing && act == ActionV::Capture(cmd_v("just"@, seq!["--summary"@]))
        } else {
            just_default(o, next, act)
        },
        JustStage::Listing => match ev {
            Event::Text(out) => {
                let rs = words(out@);
                if rs.len() == 0 {
                    just_default(o, next, act)
                } else if rs.len() == 1 {
                    just_chose(rs[0], next, act)
                } else {
                    next is Choosing && act == ActionV::Ask {
                        prompt: "Select just recipe"@,
                        options: rs,
                    }
                }
            },
            _ => just_over(next, act),
        },
        JustStage::Choosing => match ev {
            Event::Text(t) => just_chose(t@, next, act),
            _ => just_over(next, act),
        },
        JustStage::Recipe(t) => match ev {
            Event::Done => next is Over && act == ActionV::Finish(
                Some(line_of(cmd_v("just"@, seq![t@]))),
            ),
            _ => just_over(next, act),
        },
        JustStage::Running => just_over(next, act),
        JustStage::Over => just_over(next, act),
    }
}

fn just_finish() -> (r: (JustStage, Action))
    ensures
        just_over(r.0, r.1@),
{
    (JustStage::Over, Action::Finish(None))
}

fn just_default_now(o: &BuildOptions) -> (r: (JustStage, Action))
    ensures
        just_default(*o, r.0, r.1@),
{
    (JustStage::Running, Action::Run(Cmd::new1("just", o.verb())))
}

fn just_chosen(t: String) -> (r: (JustStage, Action))
    ensures
        just_chose(t@, r.0, r.1@),
{
    let c = Cmd::new1("just", t.as_str());
    (JustStage::Recipe(t), Action::Run(c))
}

impl JustBuild {
    pub fn name(&self) -> (r: &'static str)
        ensures
            r@ == "Just"@,
    {
        "Just"
    }

    pub fn description(&self) -> (r: &'static str)
        ensures
            r@ == "Build and run projects using the just command runner"@,
    {
        "Build and run projects using the just command runner"
    }

    /// A `justfile` (either capitalisation) marks a `just` project.
    pub fn detect(&self, p: &Project) -> (r: bool)
        ensures
            r == (p@.present.contains("justfile"@) || p@.present.contains("Justfile"@)),
    {
        p.has("justfile") || p.has("Justfile")
    }

    /// The next action of a build, given where it stands and what the last
    /// action gave.
    pub fn step(&self, o: &BuildOptions, st: JustStage, ev: &Event) -> (r: (JustStage, Action))
        ensures
            just_step_v(*o, st, *ev, r.0, r.1@),
    {
        match st {
            JustStage::Begin => if o.select_command {
                (JustStage::Listing, Action::Capture(Cmd::new1("just", "--summary")))
            } else {
                just_default_now(o)
            },
            JustStage::Listing => match ev {
                Event::Text(out) => {
                    let rs = recipes_of(out.as_str());
                    match select_option("Select just recipe", rs) {
                        Selection::Nothing => just_default_now(o),
                        Selection::Only(t) => just_chosen(t),
                        Selection::Ask { prompt, options } => (
                            JustStage::Choosing,
                            Action::Ask { prompt, options },
                        ),
                    }
                },
                _ => just_finish(),
            },
            JustStage::Choosing => match ev {
                Event::Text(t) => just_chosen(t.clone()),
                _ => just_finish(),
            },
            JustStage::Recipe(t) => match ev {
                Event::Done => {
                    let c = Cmd::new1("just", t.as_str());
                    (JustStage::Over, Action::Finish(Some(c.line())))
                },
                _ => just_finish(),
            },
            JustStage::Running => just_finish(),
            JustStage::Over => just_finish(),
        }
    }
}

} // verus!
