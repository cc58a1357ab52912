use vstd::prelude::*;
use crate::cli::{Cli, CliV};
use crate::command::{opt_v, strs};
use crate::config::{load_preference, pref_v, preference_v};
use crate::error::{ErrorV, YbuildError};
use crate::json::parsed_json;
use crate::systems::custom::CustomBuild;
use crate::systems::{System, all_systems, get_systems, system_name};

verus! {

/// How long after a build a change must come to start another one, in
/// nanoseconds.
pub const DEBOUNCE_NANOS: u128 = 500_000_000;

/// While watching, a change starts a new build only when more than half a
/// second has passed since the last one started.
pub fn rerun_due(elapsed_nanos: u128) -> (r: bool)
    ensures
        r == (elapsed_nanos > DEBOUNCE_NANOS),
{
    elapsed_nanos > DEBOUNCE_NANOS
}

/// The number of known build systems.
pub open spec fn known_count() -> int {
    all_systems().len() as int
}

/// The build system a run settles on: a known one, by its place in the list
/// of known systems, or a command given by the user.
#[derive(Debug, PartialEq, Eq)]
pub enum Choice {
    Known(usize),
    Custom(String),
}

/// What a choice is, with the command as text.
pub enum ChoiceV {
    Known(usize),
    Custom(Seq<char>),
}

impl View for Choice {
    type V = ChoiceV;

    open spec fn view(&self) -> ChoiceV {
        match self {
            Choice::Known(i) => ChoiceV::Known(*i),
            Choice::Custom(c) => ChoiceV::Custom(c@),
        }
    }
}

/// What is recorded for a directory: a system name and, for a custom
/// command, the command.
pub type Record = (String, Option<String>);

/// Where a run of the tool stands between actions.
#[derive(Debug, PartialEq, Eq)]
pub enum RunStage {
    /// Nothing done yet.
    Begin,
    /// The configuration file was requested.
    Loading,
    /// The known systems are being detected; whether the user is asked even
    /// when detection leaves no doubt.
    Detecting(bool),
    /// The user was asked to pick one of these systems.
    Choosing(Vec<usize>),
    /// The first build is running. When watching, the choice to keep
    /// building with; what to record for the directory if the build
    /// succeeds.
    Building { watching: Option<Choice>, record: Option<Record> },
    /// The outcome of the first build is being recorded or reported; then
    /// builds run on every change with this choice.
    Settling(Choice),
    /// Builds run on every change.
    Watching,
    /// What the build chose is being recorded.
    Remembering,
    /// The run is over.
    Over,
}

/// One thing for the program to do on behalf of a run.
#[derive(Debug, PartialEq, Eq)]
pub enum RunAction {
    /// Read the configuration file and report its text, if it exists and
    /// can be read (`RunEvent::Config`).
    LoadConfig,
    /// Find out which known systems the directory uses and report one flag
    /// per known system, in their order (`RunEvent::Detected`).
    Detect,
    /// Ask the user to pick one of `options` (`RunEvent::Picked`); a
    /// dismissed question ends the run with `SelectionCanceled`.
    Ask { prompt: String, options: Vec<String> },
    /// Record `system` and `command` for the directory (`RunEvent::Done`).
    /// When `quiet`, a failure to record is ignored; otherwise it ends the
    /// run.
    Save { system: String, command: Option<String>, quiet: bool },
    /// Tell the user `note` if there is one, write `banner` to standard
    /// output, and build with the choice (`RunEvent::Built`). When not
    /// watching, a failed build ends the run with its error; when watching,
    /// it is reported (`RunEvent::Failed`).
    Build { choice: Choice, note: Option<String>, banner: String },
    /// Tell the user that a build failed (`RunEvent::Done`).
    Report(String),
    /// Build with the choice again whenever a file changes, until watching
    /// stops (`RunEvent::Done`).
    Watch(Choice),
    /// The run is over, with this outcome.
    Finish(Result<(), YbuildError>),
}

/// What a run action is, over text.
pub enum RunActionV {
    LoadConfig,
    Detect,
    Ask { prompt: Seq<char>, options: Seq<Seq<char>> },
    Save { system: Seq<char>, command: Option<Seq<char>>, quiet: bool },
    Build { choice: ChoiceV, note: Option<Seq<char>>, banner: Seq<char> },
    Report(Seq<char>),
    Watch(ChoiceV),
    Finish(Result<(), ErrorV>),
}

impl View for RunAction {
    type V = RunActionV;

    open spec fn view(&self) -> RunActionV {
        match self {
            RunAction::LoadConfig => RunActionV::LoadConfig,
            RunAction::Detect => RunActionV::Detect,
            RunAction::Ask { prompt, options } => RunActionV::Ask {
                prompt: prompt@,
                options: strs(options@),
            },
            RunAction::Save { system, command, quiet } => RunActionV::Save {
                system: system@,
                command: opt_v(*command),
                quiet: *quiet,
            },
            RunAction::Build { choice, note, banner } => RunActionV::Build {
                choice: choice@,
                note: opt_v(*note),
                banner: banner@,
            },
            RunAction::Report(m) => RunActionV::Report(m@),
            RunAction::Watch(c) => RunActionV::Watch(c@),
            RunAction::Finish(r) => RunActionV::Finish(
                match r {
                    Ok(()) => Ok(()),
                    Err(e) => Err(e@),
                },
            ),
        }
    }
}

/// What the program reports back after performing a run action.
#[derive(Debug, PartialEq, Eq)]
pub enum RunEvent {
    /// Nothing has been done yet.
    Start,
    /// The text of the configuration file, if it exists and could be read.
    Config(Option<String>),
    /// Whether each known system was detected, in the order of the list.
    Detected(Vec<bool>),
    /// The name the user picked.
    Picked(String),
    /// The action completed.
    Done,
    /// The build succeeded, with a command to remember if it chose one.
    Built(Option<String>),
    /// The build failed, with this message.
    Failed(String),
}

/// The indices below `n` whose flag is set, in increasing order.
pub open spec fn flagged(f: Seq<bool>, n: int) -> Seq<usize>
    decreases n,
{
    if n <= 0 {
        seq![]
    } else {
        let r = flagged(f, n - 1);
        if f[n - 1] {
            r.push((n - 1) as usize)
        } else {
            r
        }
    }
}

/// The known systems a detection report flags; flags beyond the known
/// systems are ignored, missing ones count as not detected.
pub open spec fn detected_of(f: Seq<bool>) -> Seq<usize> {
    flagged(
        f,
        if f.len() < known_count() {
            f.len() as int
        } else {
            known_count()
        },
    )
}

/// Whether every index names a known system.
pub open spec fn all_known(ds: Seq<usize>) -> bool {
    forall|k: int| 0 <= k < ds.len() ==> #[trigger] ds[k] < known_count()
}

/// The names of the known systems at these indices.
pub open spec fn names_of(ds: Seq<usize>) -> Seq<Seq<char>> {
    ds.map_values(|i: usize| system_name(all_systems()[i as int]))
}

/// The first of the systems at `ds` that is named `name`.
pub open spec fn pick_from(ds: Seq<usize>, name: Seq<char>) -> Option<usize>
    decreases ds.len(),
{
    if ds.len() == 0 {
        None
    } else if system_name(all_systems()[ds[0] as int]) == name {
        Some(ds[0])
    } else {
        pick_from(ds.drop_first(), name)
    }
}

/// The indices of all known systems, in order.
pub open spec fn all_indices() -> Seq<usize> {
    Seq::new(known_count() as nat, |i: int| i as usize)
}

/// The first known system named `name`.
pub open spec fn system_index(name: Seq<char>) -> Option<usize> {
    pick_from(all_indices(), name)
}

/// The preference recorded for `project` in the configuration text, if
/// there is text, it is JSON, and the project path is valid Unicode.
pub open spec fn preference_of(text: Option<Seq<char>>, project: Option<Seq<char>>) -> Option<
    (Seq<char>, Option<Seq<char>>),
> {
    match (text, project) {
        (Some(t), Some(p)) => match parsed_json(t) {
            Some(doc) => preference_v(doc, p),
            None => None,
        },
        _ => None,
    }
}

/// The note shown when a remembered command runs.
pub open spec fn cached_command_note(command: Seq<char>) -> Seq<char> {
    "Using cached command: "@ + command + " (use -S to change)"@
}

/// The note shown when a remembered system builds.
pub open spec fn cached_system_note(name: Seq<char>) -> Seq<char> {
    "Using cached system: "@ + name + " (use -s to change)"@
}

/// The name of the system a choice builds with.
pub open spec fn choice_name(c: ChoiceV) -> Seq<char> {
    match c {
        ChoiceV::Known(i) => system_name(all_systems()[i as int]),
        ChoiceV::Custom(_) => "Custom Command"@,
    }
}

/// The line announcing the system a build uses.
pub open spec fn banner_v(c: ChoiceV) -> Seq<char> {
    "using: "@ + choice_name(c)
}

/// The run ends quietly.
pub open spec fn run_over(next: RunStage, act: RunActionV) -> bool {
    next is Over && act == RunActionV::Finish(Ok(()))
}

/// The run ends with error `e`.
pub open spec fn run_fail(e: ErrorV, next: RunStage, act: RunActionV) -> bool {
    next is Over && act == RunActionV::Finish(Err(e))
}

/// Build with choice `c`, announcing it, and record `record` for the
/// directory once the build has succeeded.
pub open spec fn build_with(
    cli: CliV,
    c: ChoiceV,
    note: Option<Seq<char>>,
    record: Option<(Seq<char>, Option<Seq<char>>)>,
    next: RunStage,
    act: RunActionV,
) -> bool {
    &&& next matches RunStage::Building { watching: w, record: r }
    &&& if cli.watch {
        w matches Some(wc) && wc@ == c
    } else {
        w is None
    }
    &&& pref_v(r) == record
    &&& act == RunActionV::Build { choice: c, note, banner: banner_v(c) }
}

/// Ask the user to pick one of the systems at `ds`.
pub open spec fn ask_then(ds: Seq<usize>, next: RunStage, act: RunActionV) -> bool {
    &&& next matches RunStage::Choosing(v)
    &&& v@ == ds
    &&& act == RunActionV::Ask {
        prompt: "Multiple build systems detected. Select one:"@,
        options: names_of(ds),
    }
}

/// What the remembered preference decides: a remembered command runs
/// (unless the command is to be chosen again) and is recorded again; a
/// remembered system that is known builds; anything else is chosen again
/// among the detected systems; with nothing remembered, detection decides.
pub open spec fn after_preference(
    cli: CliV,
    pref: Option<(Seq<char>, Option<Seq<char>>)>,
    next: RunStage,
    act: RunActionV,
) -> bool {
    match pref {
        Some((name, cmd)) => if cmd is Some && !cli.select_command {
            build_with(
                cli,
                ChoiceV::Custom(cmd->0),
                Some(cached_command_note(cmd->0)),
                Some(("Custom Command"@, cmd)),
                next,
                act,
            )
        } else {
            match system_index(name) {
                Some(i) => build_with(
                    cli,
                    ChoiceV::Known(i),
                    if cli.select_command {
                        None
                    } else {
                        Some(cached_system_note(name))
                    },
                    None,
                    next,
                    act,
                ),
                None => next == RunStage::Detecting(true) && act == RunActionV::Detect,
            }
        },
        None => next == RunStage::Detecting(false) && act == RunActionV::Detect,
    }
}

/// What detection decides: when the user is to choose, or several systems
/// were detected, the user picks; a single detected system builds and is
/// recorded once it has succeeded; none is an error.
pub open spec fn after_detection(
    cli: CliV,
    forced: bool,
    ds: Seq<usize>,
    next: RunStage,
    act: RunActionV,
) -> bool {
    if forced {
        ask_then(ds, next, act)
    } else if ds.len() == 0 {
        run_fail(ErrorV::NoBuildSystem, next, act)
    } else if ds.len() == 1 {
        build_with(
            cli,
            ChoiceV::Known(ds[0]),
            None,
            Some((system_name(all_systems()[ds[0] as int]), None)),
            next,
            act,
        )
    } else {
        ask_then(ds, next, act)
    }
}

/// What the user's pick decides: the first offered system of that name
/// builds and is recorded once it has succeeded; a name that was not
/// offered is an error.
pub open spec fn after_pick(cli: CliV, ds: Seq<usize>, name: Seq<char>, next: RunStage, act: RunActionV) -> bool {
    match pick_from(ds, name) {
        Some(i) => build_with(
            cli,
            ChoiceV::Known(i),
            None,
            Some((system_name(all_systems()[i as int]), None)),
            next,
            act,
        ),
        None => run_fail(ErrorV::Build("Selected system not found"@), next, act),
    }
}

/// What is recorded after a successful build: the command the build chose,
/// if it chose one, else what was to be recorded.
pub open spec fn after_success(
    chosen: Option<Seq<char>>,
    record: Option<(Seq<char>, Option<Seq<char>>)>,
) -> Option<(Seq<char>, Option<Seq<char>>)> {
    match chosen {
        Some(c) => Some(("Custom Command"@, Some(c))),
        None => record,
    }
}

/// What follows the first build: once it succeeded, the record is made
/// (when watching, a failure to record a command the build chose is
/// ignored; any other failure to record ends the run); a failure ends a single build with its error
/// and is reported when watching; then, when watching, builds run on every
/// change.
pub open spec fn after_build(
    watching: Option<Choice>,
    record: Option<(Seq<char>, Option<Seq<char>>)>,
    ev: RunEvent,
    next: RunStage,
    act: RunActionV,
) -> bool {
    match ev {
        RunEvent::Built(o) => match (after_success(opt_v(o), record), watching) {
            (Some((s, c)), None) => next is Remembering && act == RunActionV::Save {
                system: s,
                command: c,
                quiet: false,
            },
            (None, None) => run_over(next, act),
            (Some((s, c)), Some(w)) => next matches RunStage::Settling(x) && x@ == w@ && act
                == RunActionV::Save { system: s, command: c, quiet: o is Some },
            (None, Some(w)) => next is Watching && act == RunActionV::Watch(w@),
        },
        RunEvent::Failed(m) => match watching {
            None => run_fail(ErrorV::Other(m@), next, act),
            Some(w) => next matches RunStage::Settling(x) && x@ == w@ && act == RunActionV::Report(
                "Build failed: "@ + m@,
            ),
        },
        _ => run_over(next, act),
    }
}

/// One step of a run. A custom command runs. Otherwise, when the system is
/// to be chosen, the user picks among the detected systems; else the
/// remembered preference decides (see `after_preference`), and without one
/// detection does (see `after_detection`). Every build announces its
/// system, and what is recorded for the directory is recorded only after
/// the first build has succeeded (see `after_build`). An event of the wrong
/// kind ends the run.
pub open spec fn run_step_v(
    cli: CliV,
    project: Option<Seq<char>>,
    st: RunStage,
    ev: RunEvent,
    next: RunStage,
    act: RunActionV,
) -> bool {
    match st {
        RunStage::Begin => match cli.custom_command {
            Some(c) => build_with(
                cli,
                ChoiceV::Custom(c),
                None,
                Some(("Custom Command"@, Some(c))),
                next,
                act,
            ),
            None => if cli.select_system {
                next == RunStage::Detecting(true) && act == RunActionV::Detect
            } else {
                next is Loading && act == RunActionV::LoadConfig
            },
        },
        RunStage::Loading => match ev {
            RunEvent::Config(t) => after_preference(cli, preference_of(opt_v(t), project), next, act),
            _ => run_over(next, act),
        },
        RunStage::Detecting(forced) => match ev {
            RunEvent::Detected(f) => after_detection(cli, forced, detected_of(f@), next, act),
            _ => run_over(next, act),
        },
        RunStage::Choosing(ds) => match ev {
            RunEvent::Picked(n) => if all_known(ds@) {
                after_pick(cli, ds@, n@, next, act)
            } else {
                run_over(next, act)
            },
            _ => run_over(next, act),
        },
        RunStage::Building { watching, record } => after_build(watching, pref_v(record), ev, next, act),
        RunStage::Settling(c) => match ev {
            RunEvent::Done => next is Watching && act == RunActionV::Watch(c@),
            _ => run_over(next, act),
        },
        RunStage::Watching => run_over(next, act),
        RunStage::Remembering => run_over(next, act),
        RunStage::Over => run_over(next, act),
    }
}

proof fn lemma_flagged(f: Seq<bool>, n: int)
    ensures
        forall|k: int| 0 <= k < flagged(f, n).len() ==> #[trigger] flagged(f, n)[k] < n,
        flagged(f, n).len() <= if n < 0 { 0 } else { n },
    decreases n,
{
    if n > 0 {
        lemma_flagged(f, n - 1);
    }
}

proof fn lemma_pick_known(ds: Seq<usize>, name: Seq<char>)
    requires
        all_known(ds),
    ensures
        pick_from(ds, name) matches Some(i) ==> i < known_count(),
    decreases ds.len(),
{
    if ds.len() > 0 {
        assert(ds[0] < known_count());
        let rest = ds.drop_first();
        assert forall|k: int| 0 <= k < rest.len() implies #[trigger] rest[k] < known_count() by {
            assert(rest[k] == ds[k + 1]);
        }
        lemma_pick_known(rest, name);
    }
}

/// Whether every index names a known system.
fn all_known_vec(ds: &Vec<usize>) -> (r: bool)
    ensures
        r == all_known(ds@),
{
    let n = get_systems().len();
    let mut k: usize = 0;
    while k < ds.len()
        invariant
            k <= ds.len(),
            n == known_count(),
            forall|j: int| 0 <= j < k ==> #[trigger] ds@[j] < known_count(),
        decreases ds.len() - k,
    {
        if ds[k] >= n {
            return false;
        }
        k = k + 1;
    }
    true
}

/// The known systems a detection report flags.
pub fn detected_indices(flags: &Vec<bool>) -> (r: Vec<usize>)
    ensures
        r@ == detected_of(flags@),
        all_known(r@),
{
    let systems = get_systems();
    let n = if flags.len() < systems.len() {
        flags.len()
    } else {
        systems.len()
    };
    let mut r: Vec<usize> = Vec::new();
    let mut i: usize = 0;
    while i < n
        invariant
            i <= n,
            n <= flags.len(),
            n == if flags@.len() < known_count() {
                flags@.len() as int
            } else {
                known_count()
            },
            r@ == flagged(flags@, i as int),
        decreases n - i,
    {
        if flags[i] {
            r.push(i);
        }
        i = i + 1;
    }
    proof {
        lemma_flagged(flags@, n as int);
    }
    r
}

/// The names of the known systems at these indices.
pub fn names_at(ds: &Vec<usize>) -> (r: Vec<String>)
    requires
        all_known(ds@),
    ensures
        strs(r@) == names_of(ds@),
{
    let systems = get_systems();
    let mut r: Vec<String> = Vec::new();
    let mut k: usize = 0;
    while k < ds.len()
        invariant
            k <= ds.len(),
            systems@ == all_systems(),
            all_known(ds@),
            strs(r@) == names_of(ds@).take(k as int),
        decreases ds.len() - k,
    {
        let i = ds[k];
        assert(i < known_count());
        let name = systems[i].name().to_owned();
        proof {
            assert(strs(r@.push(name)) == strs(r@).push(name@));
            assert(names_of(ds@).take(k + 1) == names_of(ds@).take(k as int).push(
                system_name(all_systems()[i as int]),
            ));
        }
        r.push(name);
        k = k + 1;
    }
    assert(names_of(ds@).take(ds.len() as int) == names_of(ds@));
    r
}

/// The system the user picked among the detected ones: the first of them
/// whose name is `selected`, or a build error when none is. Recording the
/// pick for the directory is left to the run, which does it once the build
/// with the picked system has succeeded.
pub fn select_and_save_system(detected: &Vec<usize>, selected: &str) -> (r: Result<usize, YbuildError>)
    requires
        all_known(detected@),
    ensures
        match r {
            Ok(i) => pick_from(detected@, selected@) == Some(i),
            Err(e) => pick_from(detected@, selected@) is None && e@ == ErrorV::Build(
                "Selected system not found"@,
            ),
        },
{
    let systems = get_systems();
    let wanted = selected.to_owned();
    let mut k: usize = 0;
    assert(detected@.skip(0) == detected@);
    while k < detected.len()
        invariant
            k <= detected.len(),
            systems@ == all_systems(),
            all_known(detected@),
            wanted@ == selected@,
            pick_from(detected@, selected@) == pick_from(detected@.skip(k as int), selected@),
        decreases detected.len() - k,
    {
        let i = detected[k];
        assert(i < known_count());
        let name = systems[i].name().to_owned();
        assert(detected@.skip(k as int)[0] == i);
        if name == wanted {
            return Ok(i);
        }
        assert(detected@.skip(k as int).drop_first() == detected@.skip(k + 1));
        k = k + 1;
    }
    Err(YbuildError::Build("Selected system not found".to_owned()))
}

/// The first known system named `name`.
pub fn find_system(name: &str) -> (r: Option<usize>)
    ensures
        r == system_index(name@),
        r matches Some(i) ==> i < known_count(),
{
    let systems = get_systems();
    let wanted = name.to_owned();
    let mut i: usize = 0;
    assert(all_indices().skip(0) == all_indices());
    while i < systems.len()
        invariant
            i <= systems.len(),
            systems@ == all_systems(),
            wanted@ == name@,
            system_index(name@) == pick_from(all_indices().skip(i as int), name@),
        decreases systems.len() - i,
    {
        let n = systems[i].name().to_owned();
        assert(all_indices().skip(i as int)[0] == i);
        if n == wanted {
            return Some(i);
        }
        assert(all_indices().skip(i as int).drop_first() == all_indices().skip(i + 1));
        i = i + 1;
    }
    None
}

impl Choice {
    /// The build system of the choice.
    pub fn system(&self) -> (r: System)
        requires
            self matches Choice::Known(i) ==> i < known_count(),
        ensures
            match self {
                Choice::Known(i) => r == all_systems()[*i as int],
                Choice::Custom(c) => r matches System::Custom(b) && b.command@ == c@,
            },
    {
        match self {
            Choice::Known(i) => {
                let mut systems = get_systems();
                systems.remove(*i)
            },
            Choice::Custom(c) => System::Custom(CustomBuild { command: c.clone() }),
        }
    }
}

fn finish_quietly() -> (r: (RunStage, RunAction))
    ensures
        run_over(r.0, r.1@),
{
    (RunStage::Over, RunAction::Finish(Ok(())))
}

/// A copy of a choice.
fn copy_choice(c: &Choice) -> (r: Choice)
    ensures
        r@ == c@,
{
    match c {
        Choice::Known(i) => Choice::Known(*i),
        Choice::Custom(s) => Choice::Custom(s.clone()),
    }
}

/// The line announcing the system a build uses.
fn banner(c: &Choice) -> (r: String)
    requires
        c matches Choice::Known(i) ==> i < known_count(),
    ensures
        r@ == banner_v(c@),
{
    let mut r = "using: ".to_owned();
    match c {
        Choice::Known(i) => {
            let systems = get_systems();
            r.append(systems[*i].name());
        },
        Choice::Custom(_) => {
            r.append("Custom Command");
        },
    }
    r
}

fn build_now(cli: &Cli, c: Choice, note: Option<String>, record: Option<Record>) -> (r: (
    RunStage,
    RunAction,
))
    requires
        c matches Choice::Known(i) ==> i < known_count(),
    ensures
        build_with(cli@, c@, opt_v(note), pref_v(record), r.0, r.1@),
{
    let line = banner(&c);
    let watching = if cli.watch {
        Some(copy_choice(&c))
    } else {
        None
    };
    (RunStage::Building { watching, record }, RunAction::Build { choice: c, note, banner: line })
}

fn ask_among(ds: Vec<usize>) -> (r: (RunStage, RunAction))
    requires
        all_known(ds@),
    ensures
        ask_then(ds@, r.0, r.1@),
{
    let options = names_at(&ds);
    (
        RunStage::Choosing(ds),
        RunAction::Ask { prompt: "Multiple build systems detected. Select one:".to_owned(), options },
    )
}

fn build_known(cli: &Cli, i: usize) -> (r: (RunStage, RunAction))
    requires
        i < known_count(),
    ensures
        build_with(
            cli@,
            ChoiceV::Known(i),
            None,
            Some((system_name(all_systems()[i as int]), None)),
            r.0,
            r.1@,
        ),
{
    let systems = get_systems();
    let name = systems[i].name().to_owned();
    build_now(cli, Choice::Known(i), None, Some((name, None)))
}

fn note_for_command(cmd: &String) -> (r: String)
    ensures
        r@ == cached_command_note(cmd@),
{
    let mut r = "Using cached command: ".to_owned();
    r.append(cmd.as_str());
    r.append(" (use -S to change)");
    r
}

fn note_for_system(name: &String) -> (r: String)
    ensures
        r@ == cached_system_note(name@),
{
    let mut r = "Using cached system: ".to_owned();
    r.append(name.as_str());
    r.append(" (use -s to change)");
    r
}

fn custom_record(c: &String) -> (r: Option<Record>)
    ensures
        pref_v(r) == Some(("Custom Command"@, Some(c@))),
{
    Some(("Custom Command".to_owned(), Some(c.clone())))
}

fn use_preference(cli: &Cli, pref: Option<(String, Option<String>)>) -> (r: (RunStage, RunAction))
    ensures
        after_preference(cli@, pref_v(pref), r.0, r.1@),
{
    match pref {
        None => (RunStage::Detecting(false), RunAction::Detect),
        Some((name, cmd)) => {
            if !cli.select_command {
                match cmd {
                    Some(c) => {
                        let note = note_for_command(&c);
                        let record = custom_record(&c);
                        return build_now(cli, Choice::Custom(c), Some(note), record);
                    },
                    None => {},
                }
            }
            match find_system(name.as_str()) {
                Some(i) => {
                    let note = if cli.select_command {
                        None
                    } else {
                        Some(note_for_system(&name))
                    };
                    build_now(cli, Choice::Known(i), note, None)
                },
                None => (RunStage::Detecting(true), RunAction::Detect),
            }
        },
    }
}

fn use_detection(cli: &Cli, forced: bool, ds: Vec<usize>) -> (r: (RunStage, RunAction))
    requires
        all_known(ds@),
    ensures
        after_detection(cli@, forced, ds@, r.0, r.1@),
{
    if forced {
        ask_among(ds)
    } else if ds.len() == 0 {
        (RunStage::Over, RunAction::Finish(Err(YbuildError::NoBuildSystem)))
    } else if ds.len() == 1 {
        build_known(cli, ds[0])
    } else {
        ask_among(ds)
    }
}

fn use_outcome(watching: Option<Choice>, record: Option<Record>, ev: &RunEvent) -> (r: (
    RunStage,
    RunAction,
))
    ensures
        after_build(watching, pref_v(record), *ev, r.0, r.1@),
{
    match ev {
        RunEvent::Built(o) => {
            let rec = match o {
                Some(cmd) => custom_record(cmd),
                None => record,
            };
            match (rec, watching) {
                (Some((s, c)), None) => (
                    RunStage::Remembering,
                    RunAction::Save { system: s, command: c, quiet: false },
                ),
                (None, None) => finish_quietly(),
                (Some((s, c)), Some(w)) => (
                    RunStage::Settling(w),
                    RunAction::Save { system: s, command: c, quiet: o.is_some() },
                ),
                (None, Some(w)) => {
                    let again = copy_choice(&w);
                    (RunStage::Watching, RunAction::Watch(again))
                },
            }
        },
        RunEvent::Failed(m) => match watching {
            None => (RunStage::Over, RunAction::Finish(Err(YbuildError::Other(m.clone())))),
            Some(w) => {
                let mut msg = "Build failed: ".to_owned();
                msg.append(m.as_str());
                (RunStage::Settling(w), RunAction::Report(msg))
            },
        },
        _ => finish_quietly(),
    }
}

/// The next action of a run of the tool for directory `project` (nothing
/// when its path is not valid Unicode), given where the run stands and what
/// the last action gave.
pub fn run_step(cli: &Cli, project: Option<&str>, st: RunStage, ev: &RunEvent) -> (r: (
    RunStage,
    RunAction,
))
    ensures
        run_step_v(cli@, crate::config::opt_str_v(project), st, *ev, r.0, r.1@),
{
    match st {
        RunStage::Begin => match &cli.custom_command {
            Some(c) => {
                let record = custom_record(c);
                build_now(cli, Choice::Custom(c.clone()), None, record)
            },
            None => if cli.select_system {
                (RunStage::Detecting(true), RunAction::Detect)
            } else {
                (RunStage::Loading, RunAction::LoadConfig)
            },
        },
        RunStage::Loading => match ev {
            RunEvent::Config(t) => {
                let pref = match (t, project) {
                    (Some(text), Some(p)) => load_preference(text.as_str(), p),
                    _ => None,
                };
                use_preference(cli, pref)
            },
            _ => finish_quietly(),
        },
        RunStage::Detecting(forced) => match ev {
            RunEvent::Detected(f) => {
                let ds = detected_indices(f);
                use_detection(cli, forced, ds)
            },
            _ => finish_quietly(),
        },
        RunStage::Choosing(ds) => match ev {
            RunEvent::Picked(n) => {
                if !all_known_vec(&ds) {
                    return finish_quietly();
                }
                match select_and_save_system(&ds, n.as_str()) {
                    Ok(i) => {
                        proof {
                            lemma_pick_known(ds@, n@);
                        }
                        build_known(cli, i)
                    },
                    Err(e) => (RunStage::Over, RunAction::Finish(Err(e))),
                }
            },
            _ => finish_quietly(),
        },
        RunStage::Building { watching, record } => use_outcome(watching, record, ev),
        RunStage::Settling(c) => match ev {
            RunEvent::Done => (RunStage::Watching, RunAction::Watch(c)),
            _ => finish_quietly(),
        },
        RunStage::Watching => finish_quietly(),
        RunStage::Remembering => finish_quietly(),
        RunStage::Over => finish_quietly(),
    }
}

/// A name's length and first character, packed into one number.
spec fn name_code(n: Seq<char>) -> int {
    n.len() * 1000 + (n[0] as int)
}

proof fn lemma_name_codes_differ(s: System, t: System)
    requires
        s != t,
        !(s is Custom && t is Custom),
    ensures
        name_code(system_name(s)) != name_code(system_name(t)),
        !(s is Custom) ==> name_code(system_name(s)) != name_code("Custom Command"@),
{
    reveal_strlit("Rust");
    reveal_strlit("Makefile");
    reveal_strlit("Just");
    reveal_strlit("CMake");
    reveal_strlit("JavaScript/TypeScript");
    reveal_strlit("Go");
    reveal_strlit("uv");
    reveal_strlit("Python");
    reveal_strlit("Swift");
    reveal_strlit("Flutter");
    reveal_strlit("Docker");
    reveal_strlit("Maven");
    reveal_strlit("Gradle");
    reveal_strlit("Zig");
    reveal_strlit(".NET");
    reveal_strlit("Custom Command");
}

/// Different known systems have different names, and no known system is
/// named like a custom command, so a remembered name identifies one system.
pub proof fn law_known_names_distinct(i: int, j: int)
    requires
        0 <= i < known_count(),
        0 <= j < known_count(),
        i != j,
    ensures
        system_name(all_systems()[i]) != system_name(all_systems()[j]),
        system_name(all_systems()[i]) != "Custom Command"@,
{
    let s = all_systems()[i];
    let t = all_systems()[j];
    assert(s != t);
    assert(!(s is Custom));
    lemma_name_codes_differ(s, t);
}

/// Picking the name of an offered system gives that system.
pub proof fn law_pick_offered(ds: Seq<usize>, k: int)
    requires
        all_known(ds),
        0 <= k < ds.len(),
    ensures
        pick_from(ds, system_name(all_systems()[ds[k] as int])) == Some(ds[k]),
    decreases ds.len(),
{
    let name = system_name(all_systems()[ds[k] as int]);
    assert(ds[0] < known_count());
    assert(ds[k] < known_count());
    if system_name(all_systems()[ds[0] as int]) == name {
        if ds[0] != ds[k] {
            law_known_names_distinct(ds[0] as int, ds[k] as int);
        }
    } else {
        assert(k != 0);
        let rest = ds.drop_first();
        assert forall|m: int| 0 <= m < rest.len() implies #[trigger] rest[m] < known_count() by {
            assert(rest[m] == ds[m + 1]);
        }
        assert(rest[k - 1] == ds[k]);
        law_pick_offered(rest, k - 1);
    }
}

/// Each known system is found by its name.
pub proof fn law_found_by_name(i: int)
    requires
        0 <= i < known_count(),
    ensures
        system_index(system_name(all_systems()[i])) == Some(i as usize),
{
    let ds = all_indices();
    assert forall|m: int| 0 <= m < ds.len() implies #[trigger] ds[m] < known_count() by {}
    assert(ds[i] == i as usize);
    law_pick_offered(ds, i);
}

/// What is remembered for a directory comes back: after a known system is
/// recorded for a project, a run there that neither gives a command nor
/// asks to choose the system builds with that system, without detection,
/// and records nothing new.
pub proof fn law_remembered_system_builds(
    cli: CliV,
    project: Seq<char>,
    doc: Option<crate::json::JsonV>,
    i: int,
    next: RunStage,
    act: RunActionV,
)
    requires
        0 <= i < known_count(),
        after_preference(
            cli,
            preference_v(
                crate::config::with_preference_v(doc, project, system_name(all_systems()[i]), None),
                project,
            ),
            next,
            act,
        ),
    ensures
        build_with(
            cli,
            ChoiceV::Known(i as usize),
            if cli.select_command {
                None
            } else {
                Some(cached_system_note(system_name(all_systems()[i])))
            },
            None,
            next,
            act,
        ),
{
    crate::config::law_read_after_write(doc, project, system_name(all_systems()[i]), None);
    law_found_by_name(i);
}

/// A remembered command runs again, and is recorded again once it has
/// succeeded, unless the command is to be chosen anew.
pub proof fn law_remembered_command_runs(
    cli: CliV,
    project: Seq<char>,
    doc: Option<crate::json::JsonV>,
    command: Seq<char>,
    next: RunStage,
    act: RunActionV,
)
    requires
        !cli.select_command,
        after_preference(
            cli,
            preference_v(
                crate::config::with_preference_v(doc, project, "Custom Command"@, Some(command)),
                project,
            ),
            next,
            act,
        ),
    ensures
        build_with(
            cli,
            ChoiceV::Custom(command),
            Some(cached_command_note(command)),
            Some(("Custom Command"@, Some(command))),
            next,
            act,
        ),
{
    crate::config::law_read_after_write(doc, project, "Custom Command"@, Some(command));
}

/// A command given on the command line runs, whatever is remembered or
/// present, and once it has succeeded it is recorded for the directory.
pub proof fn law_given_command_runs(
    cli: CliV,
    project: Option<Seq<char>>,
    ev: RunEvent,
    next: RunStage,
    act: RunActionV,
    next2: RunStage,
    act2: RunActionV,
)
    requires
        (cli.custom_command is Some),
        run_step_v(cli, project, RunStage::Begin, ev, next, act),
        run_step_v(cli, project, next, RunEvent::Built(None), next2, act2),
    ensures
        act == (RunActionV::Build {
            choice: ChoiceV::Custom(cli.custom_command->0),
            note: None,
            banner: "using: "@ + "Custom Command"@,
        }),
        act2 == (RunActionV::Save {
            system: "Custom Command"@,
            command: cli.custom_command,
            quiet: false,
        }),
{
}

proof fn lemma_flagged_single(f: Seq<bool>, n: int, i: int)
    requires
        0 <= i < n <= f.len(),
        f[i],
        forall|j: int| 0 <= j < n && j != i ==> !#[trigger] f[j],
    ensures
        flagged(f, n) == seq![i as usize],
    decreases n,
{
    if n - 1 == i {
        lemma_flagged_empty(f, i, i);
    } else {
        lemma_flagged_single(f, n - 1, i);
    }
}

proof fn lemma_flagged_empty(f: Seq<bool>, n: int, i: int)
    requires
        n <= i,
        forall|j: int| 0 <= j < n ==> !#[trigger] f[j],
    ensures
        flagged(f, n) == Seq::<usize>::empty(),
    decreases n,
{
    if n > 0 {
        lemma_flagged_empty(f, n - 1, i);
    }
}

/// Without a remembered preference, a single detected system builds, and
/// is recorded for the directory once it has succeeded.
pub proof fn law_single_detection_used(
    cli: CliV,
    project: Option<Seq<char>>,
    flags: Vec<bool>,
    i: int,
    next: RunStage,
    act: RunActionV,
)
    requires
        0 <= i < known_count(),
        i < flags@.len(),
        flags@[i],
        forall|j: int| 0 <= j < flags@.len() && j < known_count() && j != i ==> !#[trigger] flags@[j],
        run_step_v(cli, project, RunStage::Detecting(false), RunEvent::Detected(flags), next, act),
    ensures
        build_with(
            cli,
            ChoiceV::Known(i as usize),
            None,
            Some((system_name(all_systems()[i]), None)),
            next,
            act,
        ),
{
    let f = flags@;
    let n = if f.len() < known_count() {
        f.len() as int
    } else {
        known_count()
    };
    lemma_flagged_single(f, n, i);
}

/// Without a remembered preference, a directory where no known system is
/// detected fails with `NoBuildSystem`.
pub proof fn law_nothing_detected_fails(
    cli: CliV,
    project: Option<Seq<char>>,
    flags: Vec<bool>,
    next: RunStage,
    act: RunActionV,
)
    requires
        forall|j: int| 0 <= j < flags@.len() ==> !#[trigger] flags@[j],
        run_step_v(cli, project, RunStage::Detecting(false), RunEvent::Detected(flags), next, act),
    ensures
        run_fail(ErrorV::NoBuildSystem, next, act),
{
    let f = flags@;
    let n = if f.len() < known_count() {
        f.len() as int
    } else {
        known_count()
    };
    lemma_flagged_empty(f, n, n);
}

/// The system the user picks among those offered is the one built, and
/// recorded once it has succeeded.
pub proof fn law_pick_is_used(
    cli: CliV,
    project: Option<Seq<char>>,
    offered: Vec<usize>,
    k: int,
    name: String,
    next: RunStage,
    act: RunActionV,
)
    requires
        all_known(offered@),
        0 <= k < offered@.len(),
        name@ == system_name(all_systems()[offered@[k] as int]),
        run_step_v(cli, project, RunStage::Choosing(offered), RunEvent::Picked(name), next, act),
    ensures
        build_with(cli, ChoiceV::Known(offered@[k]), None, Some((name@, None)), next, act),
{
    law_pick_offered(offered@, k);
}

/// A command that a single build chose is recorded for the directory.
pub proof fn law_chosen_command_remembered(
    cli: CliV,
    project: Option<Seq<char>>,
    record: Option<Record>,
    command: String,
    next: RunStage,
    act: RunActionV,
)
    requires
        run_step_v(
            cli,
            project,
            RunStage::Building { watching: None, record },
            RunEvent::Built(Some(command)),
            next,
            act,
        ),
    ensures
        act == (RunActionV::Save {
            system: "Custom Command"@,
            command: Some(command@),
            quiet: false,
        }),
{
}

/// Only what has been built successfully is recorded: every step that
/// records something for the directory follows a successful build.
pub proof fn law_recorded_only_after_success(
    cli: CliV,
    project: Option<Seq<char>>,
    st: RunStage,
    ev: RunEvent,
    next: RunStage,
    act: RunActionV,
)
    requires
        run_step_v(cli, project, st, ev, next, act),
        act is Save,
    ensures
        st is Building,
        ev is Built,
{
}

/// A single build that fails ends the run with its error and records
/// nothing.
pub proof fn law_failed_build_records_nothing(
    cli: CliV,
    project: Option<Seq<char>>,
    record: Option<Record>,
    message: String,
    next: RunStage,
    act: RunActionV,
)
    requires
        run_step_v(
            cli,
            project,
            RunStage::Building { watching: None, record },
            RunEvent::Failed(message),
            next,
            act,
        ),
    ensures
        run_fail(ErrorV::Other(message@), next, act),
{
}

/// Every build announces the system it uses.
pub proof fn law_builds_are_announced(
    cli: CliV,
    project: Option<Seq<char>>,
    st: RunStage,
    ev: RunEvent,
    next: RunStage,
    act: RunActionV,
)
    requires
        run_step_v(cli, project, st, ev, next, act),
        act is Build,
    ensures
        act matches RunActionV::Build { choice, banner, .. } && banner == "using: "@ + choice_name(choice),
{
}

/// Asking to choose the system skips what is remembered: the systems
/// detected in the directory are put to the user, even when there is only
/// one.
pub proof fn law_forced_selection_asks(
    cli: CliV,
    project: Option<Seq<char>>,
    ev: RunEvent,
    next: RunStage,
    act: RunActionV,
    flags: Vec<bool>,
    next2: RunStage,
    act2: RunActionV,
)
    requires
        (cli.custom_command is None),
        cli.select_system,
        run_step_v(cli, project, RunStage::Begin, ev, next, act),
        run_step_v(cli, project, next, RunEvent::Detected(flags), next2, act2),
    ensures
        act == RunActionV::Detect,
        ask_then(detected_of(flags@), next2, act2),
{
}

} // verus!
