use vstd::prelude::*;
use crate::command::{Action, ActionV, Cmd, Event, Project, cmd_v, opt_v, strs};
use crate::json::{Json, JsonV, entry_for, json_v, keys_v, lemma_entry_for_wf, lemma_object_v_keys, lookup, object_keys, object_v, parse_json, parsed_json};
use crate::options::BuildOptions;
use crate::select::{select_option, Selection};

verus! {

/// JavaScript and TypeScript projects run with Node.js, Bun or Deno.
#[derive(Debug, Clone, Copy)]
pub struct JavaScriptBuild;

/// The scripts a package document lists under `scripts`, in listing order.
pub open spec fn scripts_listed(doc: Json) -> Seq<Seq<char>> {
    match doc {
        Json::Object(es) => match entry_for(es@, "scripts"@) {
            Some(Json::Object(ss)) => keys_v(ss@),
            _ => seq![],
        },
        _ => seq![],
    }
}

/// The names of the scripts a `package.json` text defines; none when the
/// file could not be read or is not a package document.
pub open spec fn scripts_set(content: Option<Seq<char>>) -> Set<Seq<char>> {
    match content {
        Some(t) => match parsed_json(t) {
            Some(JsonV::Object(m)) => if m.contains_key("scripts"@) {
                match m["scripts"@] {
                    JsonV::Object(s) => s.dom(),
                    _ => Set::empty(),
                }
            } else {
                Set::empty()
            },
            _ => Set::empty(),
        },
        None => Set::empty(),
    }
}

/// The scripts a package document lists, in listing order.
pub fn scripts_in(doc: &Json) -> (r: Vec<String>)
    ensures
        strs(r@) == scripts_listed(*doc),
{
    match doc {
        Json::Object(es) => match lookup(es, "scripts") {
            Some(v) => match v {
                Json::Object(_) => match object_keys(v) {
                    Some(ks) => ks,
                    None => Vec::new(),
                },
                _ => {
                    let r: Vec<String> = Vec::new();
                    assert(strs(r@) == Seq::<Seq<char>>::empty());
                    r
                },
            },
            None => {
                let r: Vec<String> = Vec::new();
                assert(strs(r@) == Seq::<Seq<char>>::empty());
                r
            },
        },
        _ => {
            let r: Vec<String> = Vec::new();
            assert(strs(r@) == Seq::<Seq<char>>::empty());
            r
        },
    }
}

/// The names of the scripts defined by the text of `package.json`, each
/// once. Their order is the order of the parsed object's members, which
/// tinyjson's hash map decides.
pub fn package_scripts(content: &Option<String>) -> (r: Vec<String>)
    ensures
        strs(r@).no_duplicates(),
        strs(r@).to_set() == scripts_set(opt_v(*content)),
{
    let empty: Vec<String> = Vec::new();
    proof {
        assert(strs(empty@) == Seq::<Seq<char>>::empty());
        assert(strs(empty@).to_set() =~= Set::<Seq<char>>::empty());
    }
    match content {
        None => empty,
        Some(text) => match parse_json(text.as_str()) {
            Err(_) => empty,
            Ok(doc) => {
                let r = scripts_in(&doc);
                proof {
                    match doc {
                        Json::Object(es) => {
                            let m = object_v(es@);
                            assert(doc@ == JsonV::Object(m));
                            crate::json::lemma_object_v_dom(es@, "scripts"@);
                            match entry_for(es@, "scripts"@) {
                                Some(v) => {
                                    lemma_entry_for_wf(es@, "scripts"@);
                                    lemma_entry_for_is_listed(es@, "scripts"@);
                                    assert(m.contains_key("scripts"@));
                                    assert(m["scripts"@] == json_v(v));
                                    match v {
                                        Json::Object(ss) => {
                                            lemma_object_v_keys(ss@);
                                        },
                                        _ => {},
                                    }
                                },
                                None => {
                                    lemma_entry_for_is_listed(es@, "scripts"@);
                                    assert(!m.contains_key("scripts"@));
                                },
                            }
                        },
                        _ => {},
                    }
                }
                r
            },
        },
    }
}

/// The first listing of a key is what the object's map holds.
pub proof fn lemma_entry_for_is_listed(s: Seq<(String, Json)>, k: Seq<char>)
    ensures
        match entry_for(s, k) {
            Some(v) => object_v(s).contains_key(k) && object_v(s)[k] == json_v(v),
            None => !object_v(s).contains_key(k),
        },
    decreases s.len(),
{
    if s.len() > 0 {
        lemma_entry_for_is_listed(s.subrange(1, s.len() as int), k);
    }
}

/// The package managers whose lockfiles are present, in the order bun,
/// pnpm, yarn, npm.
pub open spec fn js_managers(present: Seq<Seq<char>>) -> Seq<Seq<char>> {
    (if present.contains("bun.lockb"@) || present.contains("bun.lock"@) {
        seq!["bun"@]
    } else {
        seq![]
    }) + (if present.contains("pnpm-lock.yaml"@) {
        seq!["pnpm"@]
    } else {
        seq![]
    }) + (if present.contains("yarn.lock"@) {
        seq!["yarn"@]
    } else {
        seq![]
    }) + (if present.contains("package-lock.json"@) {
        seq!["npm"@]
    } else {
        seq![]
    })
}

/// Where a JavaScript build stands between actions.
#[derive(Debug, PartialEq, Eq)]
pub enum JsStage {
    /// Nothing done yet.
    Begin,
    /// Whether Bun is installed is being found out.
    ProbingBun,
    /// Whether Deno is installed is being found out.
    ProbingDeno,
    /// The user was asked for a package manager.
    ChoosingManager,
    /// `package.json` is being read, for this package manager.
    Reading(String),
    /// The user was asked for a script, to run with this package manager.
    ChoosingScript(String),
    /// The last command is running.
    Running,
    /// The build is over.
    Over,
}

pub open spec fn js_over(next: JsStage, act: ActionV) -> bool {
    next is Over && act == ActionV::Finish(None)
}

/// What to do once the package manager `pm` is known: `<pm> test` when
/// testing; read `package.json` to offer its scripts when running or when
/// the script is to be chosen; nothing otherwise.
pub open spec fn js_with_manager(o: BuildOptions, pm: Seq<char>, next: JsStage, act: ActionV) -> bool {
    if o.test {
        next is Running && act == ActionV::Run(cmd_v(pm, seq!["test"@]))
    } else if o.run || o.select_command {
        next matches JsStage::Reading(s) && s@ == pm && act == ActionV::ReadFile("package.json"@)
    } else {
        js_over(next, act)
    }
}

/// Running without a script: `bun run .` with Bun, else `node` on the first
/// entry file present (`index.js`, `main.ts`, `index.ts`, `server.js`), else
/// nothing.
pub open spec fn js_fallback(present: Seq<Seq<char>>, pm: Seq<char>, next: JsStage, act: ActionV) -> bool {
    if pm == "bun"@ {
        next is Running && act == ActionV::Run(cmd_v("bun"@, seq!["run"@, "."@]))
    } else if present.contains("index.js"@) {
        next is Running && act == ActionV::Run(cmd_v("node"@, seq!["index.js"@]))
    } else if present.contains("main.ts"@) {
        next is Running && act == ActionV::Run(cmd_v("node"@, seq!["main.ts"@]))
    } else if present.contains("index.ts"@) {
        next is Running && act == ActionV::Run(cmd_v("node"@, seq!["index.ts"@]))
    } else if present.contains("server.js"@) {
        next is Running && act == ActionV::Run(cmd_v("node"@, seq!["server.js"@]))
    } else {
        js_over(next, act)
    }
}

/// Run script `s` with `pm`.
pub open spec fn js_run_script(pm: Seq<char>, s: Seq<char>, next: JsStage, act: ActionV) -> bool {
    next is Running && act == ActionV::Run(cmd_v(pm, seq!["run"@, s]))
}

/// Once `package.json` was read (or could not be): with no scripts, the
/// fallback when running and nothing otherwise; with one, it runs; with
/// more, the user picks one.
pub open spec fn js_after_read(
    o: BuildOptions,
    present: Seq<Seq<char>>,
    pm: Seq<char>,
    content: Option<Seq<char>>,
    next: JsStage,
    act: ActionV,
) -> bool {
    let s = scripts_set(content);
    if s == Set::<Seq<char>>::empty() {
        if o.run {
            js_fallback(present, pm, next, act)
        } else {
            js_over(next, act)
        }
    } else if exists|x: Seq<char>| s == Set::<Seq<char>>::empty().insert(x) {
        exists|x: Seq<char>|
            s == Set::<Seq<char>>::empty().insert(x) && #[trigger] js_run_script(pm, x, next, act)
    } else {
        &&& next matches JsStage::ChoosingScript(q)
        &&& q@ == pm
        &&& act matches ActionV::Ask { prompt, options }
        &&& prompt == "Select script to run"@
        &&& options.no_duplicates()
        &&& options.to_set() == s
    }
}

/// One step of a JavaScript build. The package manager is the one whose
/// lockfile is present; with several the user picks; with none, Bun if it
/// is installed, else Deno if it is, else npm. Testing runs `<pm> test`.
/// Running, or choosing the script, offers the scripts of `package.json`
/// (one is taken without asking); without scripts, running falls back to
/// an entry file and choosing alone does nothing. Building does nothing. An event of the wrong kind ends the build.
pub open spec fn js_step_v(
    o: BuildOptions,
    present: Seq<Seq<char>>,
    st: JsStage,
    ev: Event,
    next: JsStage,
    act: ActionV,
) -> bool {
    match st {
        JsStage::Begin => {
            let ms = js_managers(present);
            if ms.len() == 0 {
                next is ProbingBun && act == ActionV::Probe(cmd_v("bun"@, seq!["--version"@]))
            } else if ms.len() == 1 {
                js_with_manager(o, ms[0], next, act)
            } else {
                next is ChoosingManager && act == ActionV::Ask {
                    prompt: "Multiple lockfiles detected. Select package manager:"@,
                    options: ms,
                }
            }
        },
        JsStage::ProbingBun => match ev {
            Event::Flag(ok) => if ok {
                js_with_manager(o, "bun"@, next, act)
            } else {
                next is ProbingDeno && act == ActionV::Probe(cmd_v("deno"@, seq!["--version"@]))
            },
            _ => js_over(next, act),
        },
        JsStage::ProbingDeno => match ev {
            Event::Flag(ok) => js_with_manager(
                o,
                if ok {
                    "deno"@
                } else {
                    "npm"@
                },
                next,
                act,
            ),
            _ => js_over(next, act),
        },
        JsStage::ChoosingManager => match ev {
            Event::Text(pm) => js_with_manager(o, pm@, next, act),
            _ => js_over(next, act),
        },
        JsStage::Reading(pm) => match ev {
            Event::File(c) => js_after_read(o, present, pm@, opt_v(c), next, act),
            _ => js_over(next, act),
        },
        JsStage::ChoosingScript(pm) => match ev {
            Event::Text(s) => js_run_script(pm@, s@, next, act),
            _ => js_over(next, act),
        },
        JsStage::Running => js_over(next, act),
        JsStage::Over => js_over(next, act),
    }
}

fn js_finish() -> (r: (JsStage, Action))
    ensures
        js_over(r.0, r.1@),
{
    (JsStage::Over, Action::Finish(None))
}

fn js_manager_known(o: &BuildOptions, pm: String) -> (r: (JsStage, Action))
    ensures
        js_with_manager(*o, pm@, r.0, r.1@),
{
    if o.test {
        (JsStage::Running, Action::Run(Cmd::new1(pm.as_str(), "test")))
    } else if o.run || o.select_command {
        (JsStage::Reading(pm), Action::ReadFile("package.json".to_owned()))
    } else {
        js_finish()
    }
}

fn js_fallback_now(p: &Project, pm: &String) -> (r: (JsStage, Action))
    ensures
        js_fallback(p@.present, pm@, r.0, r.1@),
{
    let bun = "bun".to_owned();
    if *pm == bun {
        return (JsStage::Running, Action::Run(Cmd::new2("bun", "run", ".")));
    }
    if p.has("index.js") {
        (JsStage::Running, Action::Run(Cmd::new1("node", "index.js")))
    } else if p.has("main.ts") {
        (JsStage::Running, Action::Run(Cmd::new1("node", "main.ts")))
    } else if p.has("index.ts") {
        (JsStage::Running, Action::Run(Cmd::new1("node", "index.ts")))
    } else if p.has("server.js") {
        (JsStage::Running, Action::Run(Cmd::new1("node", "server.js")))
    } else {
        js_finish()
    }
}

fn js_read(o: &BuildOptions, p: &Project, pm: String, c: &Option<String>) -> (r: (JsStage, Action))
    ensures
        js_after_read(*o, p@.present, pm@, opt_v(*c), r.0, r.1@),
{
    let names = package_scripts(c);
    let ghost ns = strs(names@);
    let ghost s = scripts_set(opt_v(*c));
    match select_option("Select script to run", names) {
        Selection::Nothing => {
            assert(ns.to_set() =~= Set::<Seq<char>>::empty());
            if o.run {
                js_fallback_now(p, &pm)
            } else {
                js_finish()
            }
        },
        Selection::Only(x) => {
            let cmd = Cmd::new2(pm.as_str(), "run", x.as_str());
            proof {
                assert(ns == seq![x@]);
                assert(ns.to_set() =~= Set::<Seq<char>>::empty().insert(x@));
                assert(s == Set::<Seq<char>>::empty().insert(x@));
                assert(js_run_script(pm@, x@, JsStage::Running, ActionV::Run(cmd@)));
                assert(s.contains(x@));
                assert(s != Set::<Seq<char>>::empty());
                assert(exists|y: Seq<char>| s == Set::<Seq<char>>::empty().insert(y));
                assert(exists|y: Seq<char>|
                    s == Set::<Seq<char>>::empty().insert(y) && #[trigger] js_run_script(
                        pm@,
                        y,
                        JsStage::Running,
                        ActionV::Run(cmd@),
                    ));
            }
            (JsStage::Running, Action::Run(cmd))
        },
        Selection::Ask { prompt, options } => {
            proof {
                assert(ns.len() >= 2);
                assert(ns.to_set().contains(ns[0]));
                assert(ns.to_set().contains(ns[1]));
                assert(s.contains(ns[0]));
                assert(s.contains(ns[1]));
                assert(ns[0] != ns[1]);
                if exists|x: Seq<char>| s == Set::<Seq<char>>::empty().insert(x) {
                    let x = choose|x: Seq<char>| s == Set::<Seq<char>>::empty().insert(x);
                    assert(ns[0] == x && ns[1] == x);
                }
            }
            (JsStage::ChoosingScript(pm), Action::Ask { prompt, options })
        },
    }
}

impl JavaScriptBuild {
    pub fn name(&self) -> (r: &'static str)
        ensures
            r@ == "JavaScript/TypeScript"@,
    {
        "JavaScript/TypeScript"
    }

    pub fn description(&self) -> (r: &'static str)
        ensures
            r@ == "Build and run projects using Node.js, Bun, or Deno"@,
    {
        "Build and run projects using Node.js, Bun, or Deno"
    }

    /// A package manifest, a lockfile or a usual entry file marks a
    /// JavaScript project.
    pub fn detect(&self, p: &Project) -> (r: bool)
        ensures
            r == (p@.present.contains("package.json"@) || p@.present.contains("bun.lockb"@)
                || p@.present.contains("bun.lock"@) || p@.present.contains("pnpm-lock.yaml"@)
                || p@.present.contains("yarn.lock"@) || p@.present.contains("package-lock.json"@)
                || p@.present.contains("index.js"@) || p@.present.contains("main.ts"@)
                || p@.present.contains("index.ts"@)),
    {
        p.has("package.json") || p.has("bun.lockb") || p.has("bun.lock") || p.has("pnpm-lock.yaml")
            || p.has("yarn.lock") || p.has("package-lock.json") || p.has("index.js") || p.has(
            "main.ts",
        ) || p.has("index.ts")
    }

    /// The package managers whose lockfiles are present.
    pub fn managers(&self, p: &Project) -> (r: Vec<String>)
        ensures
            strs(r@) == js_managers(p@.present),
    {
        let mut ms: Vec<String> = Vec::new();
        if p.has("bun.lockb") || p.has("bun.lock") {
            ms.push("bun".to_owned());
        }
        let ghost a = strs(ms@);
        if p.has("pnpm-lock.yaml") {
            ms.push("pnpm".to_owned());
        }
        let ghost b = strs(ms@);
        if p.has("yarn.lock") {
            ms.push("yarn".to_owned());
        }
        let ghost c = strs(ms@);
        if p.has("package-lock.json") {
            ms.push("npm".to_owned());
        }
        assert(strs(ms@) == js_managers(p@.present));
        ms
    }

    /// The next action of a build, given where it stands and what the last
    /// action gave.
    pub fn step(&self, o: &BuildOptions, p: &Project, st: JsStage, ev: &Event) -> (r: (
        JsStage,
        Action,
    ))
        ensures
            js_step_v(*o, p@.present, st, *ev, r.0, r.1@),
    {
        match st {
            JsStage::Begin => {
                let ms = self.managers(p);
                if ms.len() == 0 {
                    (JsStage::ProbingBun, Action::Probe(Cmd::new1("bun", "--version")))
                } else if ms.len() == 1 {
                    let pm = ms[0].clone();
                    js_manager_known(o, pm)
                } else {
                    (
                        JsStage::ChoosingManager,
                        Action::Ask {
                            prompt: "Multiple lockfiles detected. Select package manager:".to_owned(),
                            options: ms,
                        },
                    )
                }
            },
            JsStage::ProbingBun => match ev {
                Event::Flag(ok) => if *ok {
                    js_manager_known(o, "bun".to_owned())
                } else {
                    (JsStage::ProbingDeno, Action::Probe(Cmd::new1("deno", "--version")))
                },
                _ => js_finish(),
            },
            JsStage::ProbingDeno => match ev {
                Event::Flag(ok) => if *ok {
                    js_manager_known(o, "deno".to_owned())
                } else {
                    js_manager_known(o, "npm".to_owned())
                },
                _ => js_finish(),
            },
            JsStage::ChoosingManager => match ev {
                Event::Text(pm) => js_manager_known(o, pm.clone()),
                _ => js_finish(),
            },
            JsStage::Reading(pm) => match ev {
                Event::File(c) => js_read(o, p, pm, c),
                _ => js_finish(),
            },
            JsStage::ChoosingScript(pm) => match ev {
                Event::Text(s) => (
                    JsStage::Running,
                    Action::Run(Cmd::new2(pm.as_str(), "run", s.as_str())),
                ),
                _ => js_finish(),
            },
            JsStage::Running => js_finish(),
            JsStage::Over => js_finish(),
        }
    }
}

} // verus!
