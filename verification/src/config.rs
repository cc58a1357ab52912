use vstd::prelude::*;
use crate::error::YbuildError;
use crate::json::{
    Json, JsonV, json_v, object_v, parsed_json, get_field, as_text, parse_json, stringify_json, json_wf,
    keys_v, kept_v, settled_v, writable_v, parse_message, write_failure, lemma_object_wf_all, lemma_settled_writable_kept,
};
use crate::error::ErrorV;

verus! {

/// What is remembered for a project directory: the build system to use and,
/// for a custom command, the command itself.
pub open spec fn preference_v(doc: JsonV, project: Seq<char>) -> Option<(Seq<char>, Option<Seq<char>>)> {
    match doc {
        JsonV::Object(projects) => if projects.contains_key(project) {
            match projects[project] {
                JsonV::Str(system) => Some((system, None)),
                JsonV::Object(entry) => if entry.contains_key("system"@) && entry["system"@] is Str {
                    let command = if entry.contains_key("command"@) && entry["command"@] is Str {
                        Some(entry["command"@]->Str_0)
                    } else {
                        None
                    };
                    Some((entry["system"@]->Str_0, command))
                } else {
                    None
                },
                _ => None,
            }
        } else {
            None
        },
        _ => None,
    }
}

/// The text view of a remembered preference.
pub open spec fn pref_v(p: Option<(String, Option<String>)>) -> Option<(Seq<char>, Option<Seq<char>>)> {
    match p {
        Some((s, c)) => Some((s@, crate::command::opt_v(c))),
        None => None,
    }
}

/// The preference recorded for `project` in a configuration document: a
/// bare string names a build system; an object names one under `system`
/// and may hold a custom command under `command`.
pub fn preference_from(doc: &Json, project: &str) -> (r: Option<(String, Option<String>)>)
    ensures
        pref_v(r) == preference_v(doc@, project@),
{
    let val = get_field(doc, project);
    match val {
        None => None,
        Some(v) => match v {
            Json::Str(s) => Some((s.clone(), None)),
            Json::Object(_) => {
                let sys = get_field(v, "system");
                match sys {
                    None => None,
                    Some(sj) => match as_text(sj) {
                        None => None,
                        Some(system) => {
                            let command = match get_field(v, "command") {
                                Some(cj) => as_text(cj),
                                None => None,
                            };
                            Some((system, command))
                        },
                    },
                }
            },
            _ => None,
        },
    }
}

/// The preference recorded for `project` in the text of the configuration
/// file; nothing when the text is not JSON or records nothing usable.
pub fn load_preference(config_text: &str, project: &str) -> (r: Option<(String, Option<String>)>)
    ensures
        match parsed_json(config_text@) {
            Some(doc) => pref_v(r) == preference_v(doc, project@),
            None => r is None,
        },
{
    match parse_json(config_text) {
        Ok(doc) => preference_from(&doc, project),
        Err(_) => None,
    }
}

/// The entry recorded for a project: the system, and the command if any.
pub open spec fn entry_v(system: Seq<char>, command: Option<Seq<char>>) -> JsonV {
    match command {
        Some(c) => JsonV::Object(
            Map::empty().insert("system"@, JsonV::Str(system)).insert("command"@, JsonV::Str(c)),
        ),
        None => JsonV::Object(Map::empty().insert("system"@, JsonV::Str(system))),
    }
}

/// The projects recorded in a configuration document; a document that is
/// not an object records none.
pub open spec fn projects_v(doc: Option<JsonV>) -> Map<Seq<char>, JsonV> {
    match doc {
        Some(JsonV::Object(m)) => m,
        _ => Map::empty(),
    }
}

/// The document after recording `system` and `command` for `project`.
pub open spec fn with_preference_v(
    doc: Option<JsonV>,
    project: Seq<char>,
    system: Seq<char>,
    command: Option<Seq<char>>,
) -> JsonV {
    JsonV::Object(projects_v(doc).insert(project, entry_v(system, command)))
}

/// Whether a document, if there is one, lists each key of its objects once.
pub open spec fn doc_wf(doc: Option<Json>) -> bool {
    match doc {
        Some(d) => json_wf(d),
        None => true,
    }
}

pub open spec fn doc_v(doc: Option<Json>) -> Option<JsonV> {
    match doc {
        Some(d) => Some(d@),
        None => None,
    }
}

pub proof fn lemma_object_v_update(s: Seq<(String, Json)>, i: int, k: String, v: Json)
    requires
        0 <= i < s.len(),
        s[i].0@ == k@,
        forall|j: int| 0 <= j < i ==> s[j].0@ != k@,
    ensures
        object_v(s.update(i, (k, v))) == object_v(s).insert(k@, json_v(v)),
    decreases i,
{
    let t = s.subrange(1, s.len() as int);
    let u = s.update(i, (k, v));
    if i == 0 {
        assert(u.subrange(1, u.len() as int) == t);
        assert(object_v(u) =~= object_v(s).insert(k@, json_v(v)));
    } else {
        assert forall|j: int| 0 <= j < i - 1 implies t[j].0@ != k@ by {
            assert(t[j] == s[j + 1]);
        }
        lemma_object_v_update(t, i - 1, k, v);
        assert(u.subrange(1, u.len() as int) == t.update(i - 1, (k, v)));
        assert(object_v(u) =~= object_v(s).insert(k@, json_v(v)));
    }
}

pub proof fn lemma_object_v_push(s: Seq<(String, Json)>, k: String, v: Json)
    requires
        forall|j: int| 0 <= j < s.len() ==> s[j].0@ != k@,
    ensures
        object_v(s.push((k, v))) == object_v(s).insert(k@, json_v(v)),
    decreases s.len(),
{
    let u = s.push((k, v));
    if s.len() == 0 {
        let e = u.subrange(1, u.len() as int);
        assert(e.len() == 0);
        assert(object_v(e) == Map::<Seq<char>, JsonV>::empty());
        assert(u[0] == (k, v));
        assert(object_v(u) == object_v(e).insert(k@, json_v(v)));
        assert(object_v(s) == Map::<Seq<char>, JsonV>::empty());
        assert(object_v(u) =~= object_v(s).insert(k@, json_v(v)));
    } else {
        let t = s.subrange(1, s.len() as int);
        assert forall|j: int| 0 <= j < t.len() implies t[j].0@ != k@ by {
            assert(t[j] == s[j + 1]);
        }
        lemma_object_v_push(t, k, v);
        assert(u.subrange(1, u.len() as int) == t.push((k, v)));
        assert(u[0] == s[0]);
        assert(s[0].0@ != k@);
        assert(object_v(u) == object_v(t.push((k, v))).insert(s[0].0@, json_v(s[0].1)));
        assert(object_v(s) == object_v(t).insert(s[0].0@, json_v(s[0].1)));
        assert(object_v(u) =~= object_v(s).insert(k@, json_v(v)));
    }
}

/// The document `doc` (or an empty one) after recording `system`, and the
/// custom `command` if given, for `project`. Other projects keep their
/// entries; a document that is not an object is replaced.
pub fn with_preference(doc: Option<Json>, project: &str, system: &str, command: Option<&str>) -> (r:
    Json)
    ensures
        doc_wf(doc) ==> json_wf(r),
        r@ == with_preference_v(
            doc_v(doc),
            project@,
            system@,
            match command {
                Some(c) => Some(c@),
                None => None,
            },
        ),
{
    let mut entry: Vec<(String, Json)> = Vec::new();
    entry.push(("system".to_owned(), Json::Str(system.to_owned())));
    match command {
        Some(c) => {
            entry.push(("command".to_owned(), Json::Str(c.to_owned())));
        },
        None => {},
    }
    let ghost cv = match command {
        Some(c) => Some(c@),
        None => None,
    };
    proof {
        reveal_strlit("system");
        reveal_strlit("command");
        let e = entry@;
        let t = e.subrange(1, e.len() as int);
        if command is Some {
            let t2 = t.subrange(1, t.len() as int);
            assert(t2.len() == 0);
            assert(object_v(t2) == Map::<Seq<char>, JsonV>::empty());
            assert(object_v(t) == object_v(t2).insert(t[0].0@, json_v(t[0].1)));
            assert(t[0] == e[1]);
            assert(object_v(e) == object_v(t).insert(e[0].0@, json_v(e[0].1)));
            assert("system"@[0] != "command"@[0]);
            assert(object_v(e) =~= Map::empty().insert("system"@, JsonV::Str(system@)).insert(
                "command"@,
                JsonV::Str(cv->0),
            ));
        } else {
            assert(t.len() == 0);
            assert(object_v(t) == Map::<Seq<char>, JsonV>::empty());
            assert(object_v(e) == object_v(t).insert(e[0].0@, json_v(e[0].1)));
            assert(object_v(e) =~= Map::empty().insert("system"@, JsonV::Str(system@)));
        }
    }
    proof {
        let e = entry@;
        lemma_object_wf_all(e);
        assert(keys_v(e).no_duplicates()) by {
            if command is Some {
                assert(keys_v(e) == seq!["system"@, "command"@]);
                assert("system"@[0] != "command"@[0]);
            } else {
                assert(keys_v(e) == seq!["system"@]);
            }
        }
        assert(json_wf(Json::Object(entry)));
    }
    let ghost wf_in = doc_wf(doc);
    let mut projects: Vec<(String, Json)> = match doc {
        Some(Json::Object(es)) => es,
        _ => Vec::new(),
    };
    proof {
        assert(object_v(projects@) == projects_v(doc_v(doc)));
        if wf_in {
            assert(keys_v(projects@).no_duplicates() && crate::json::object_wf(projects@)) by {
                if projects@.len() == 0 {
                    assert(keys_v(projects@).len() == 0);
                    lemma_object_wf_all(projects@);
                }
            }
        }
    }
    let key = project.to_owned();
    let new_entry = Json::Object(entry);
    let ghost ev = json_v(new_entry);
    assert(ev == entry_v(system@, cv));
    let mut i: usize = 0;
    while i < projects.len() && !(projects[i].0 == key)
        invariant
            i <= projects.len(),
            key@ == project@,
            forall|j: int| 0 <= j < i ==> projects@[j].0@ != project@,
        decreases projects.len() - i,
    {
        i = i + 1;
    }
    let ghost before = projects@;
    let ghost entry_wf = json_wf(new_entry);
    if i < projects.len() {
        proof {
            lemma_object_v_update(before, i as int, key, new_entry);
        }
        projects.set(i, (key, new_entry));
        proof {
            if wf_in {
                assert(keys_v(projects@) =~= keys_v(before));
                lemma_object_wf_all(before);
                lemma_object_wf_all(projects@);
                assert forall|j: int| 0 <= j < projects@.len() implies json_wf(#[trigger] projects@[j].1) by {
                    if j != i {
                        assert(projects@[j] == before[j]);
                    }
                }
            }
        }
    } else {
        proof {
            lemma_object_v_push(before, key, new_entry);
        }
        projects.push((key, new_entry));
        proof {
            if wf_in {
                assert(keys_v(projects@) =~= keys_v(before).push(project@));
                assert(!keys_v(before).contains(project@)) by {
                    if keys_v(before).contains(project@) {
                        let j = choose|j: int| 0 <= j < keys_v(before).len() && keys_v(before)[j] == project@;
                        assert(before[j].0@ == project@);
                    }
                }
                lemma_object_wf_all(before);
                lemma_object_wf_all(projects@);
                assert forall|j: int| 0 <= j < projects@.len() implies json_wf(#[trigger] projects@[j].1) by {
                    if j < before.len() {
                        assert(projects@[j] == before[j]);
                    }
                }
            }
        }
    }
    Json::Object(projects)
}

/// The configuration document a file's text holds: `Some(None)` when there
/// is no file, `Some(Some(doc))` when its text is JSON, and nothing when it
/// is not.
pub open spec fn prior_doc(existing: Option<Seq<char>>) -> Option<Option<JsonV>> {
    match existing {
        Some(t) => match parsed_json(t) {
            Some(d) => Some(Some(d)),
            None => None,
        },
        None => Some(None),
    }
}

/// The text of an optional string slice.
pub open spec fn opt_str_v(o: Option<&str>) -> Option<Seq<char>> {
    match o {
        Some(c) => Some(c@),
        None => None,
    }
}

/// Recording a preference in a document whose numbers are settled keeps
/// them settled: the new entry holds text only.
pub proof fn lemma_with_preference_settled(
    doc: Option<JsonV>,
    project: Seq<char>,
    system: Seq<char>,
    command: Option<Seq<char>>,
)
    requires
        doc matches Some(d) ==> settled_v(d),
    ensures
        settled_v(with_preference_v(doc, project, system, command)),
{
    let m = projects_v(doc).insert(project, entry_v(system, command));
    let e = entry_v(system, command);
    assert(settled_v(e)) by {
        match e {
            JsonV::Object(em) => {
                assert forall|k: Seq<char>| em.contains_key(k) implies settled_v(#[trigger] em[k]) by {
                    assert(em[k] is Str);
                }
            },
            _ => {},
        }
    }
    assert forall|k: Seq<char>| m.contains_key(k) implies settled_v(#[trigger] m[k]) by {
        if k != project {
            assert(projects_v(doc).contains_key(k));
            match doc {
                Some(JsonV::Object(pm)) => {
                    assert(pm.contains_key(k));
                },
                _ => {},
            }
        }
    }
}

/// The configuration document after recording `system` (and `command`) for
/// `project`, given the current text of the file if there is one: an empty
/// document when there is none, and a JSON error with the parser's message
/// when the text is not JSON.
pub fn updated_config(existing: Option<&str>, project: &str, system: &str, command: Option<&str>)
    -> (r: Result<Json, YbuildError>)
    ensures
        match prior_doc(opt_str_v(existing)) {
            Some(d) => r matches Ok(j) && j@ == with_preference_v(d, project@, system@, opt_str_v(command)),
            None => existing matches Some(t) && r matches Err(e) && e@ == ErrorV::Json(parse_message(t@)),
        },
        r matches Ok(j) ==> json_wf(j) && settled_v(j@),
{
    let doc = match existing {
        Some(text) => match parse_json(text) {
            Ok(d) => Some(d),
            Err(msg) => {
                return Err(YbuildError::Json(msg));
            },
        },
        None => None,
    };
    let r = with_preference(doc, project, system, command);
    proof {
        lemma_with_preference_settled(doc_v(doc), project@, system@, opt_str_v(command));
    }
    Ok(r)
}

/// The text of the configuration file after recording `system` (and
/// `command`) for the project, given the current text of the file if there
/// is one. Text that is not JSON gives a JSON error with the parser's
/// message; a project path that is not valid Unicode (`None`) then gives a
/// configuration error; and a document with a number tinyjson cannot write
/// gives a JSON error. Otherwise the result is text that reads back as the
/// updated document.
pub fn save_preference(existing: Option<&str>, project: Option<&str>, system: &str, command: Option<&str>)
    -> (r: Result<String, YbuildError>)
    ensures
        match prior_doc(opt_str_v(existing)) {
            None => existing matches Some(t) && r matches Err(e) && e@ == ErrorV::Json(parse_message(t@)),
            Some(d) => match project {
                None => r matches Err(e) && e@ == ErrorV::Config("Invalid project path"@),
                Some(p) => {
                    &&& r is Ok <==> writable_v(with_preference_v(d, p@, system@, opt_str_v(command)))
                    &&& r matches Ok(s) ==> parsed_json(s@) == Some(
                        with_preference_v(d, p@, system@, opt_str_v(command)),
                    )
                    &&& r matches Err(e) ==> e matches YbuildError::Json(m) && write_failure(m@)
                },
            },
        },
{
    let updated = match project {
        Some(p) => updated_config(existing, p, system, command)?,
        None => {
            updated_config(existing, "", system, command)?;
            return Err(YbuildError::Config("Invalid project path".to_owned()));
        },
    };
    let ghost v = updated@;
    match stringify_json(&updated) {
        Ok(s) => {
            proof {
                lemma_settled_writable_kept(v);
            }
            Ok(s)
        },
        Err(msg) => Err(YbuildError::Json(msg)),
    }
}

/// Loading what was saved: once the text of the configuration file reads
/// as a document in which a preference was recorded for a project, the
/// preference loaded from that text for the project is the recorded system
/// and command.
pub proof fn law_load_after_save(
    text: Seq<char>,
    doc: Option<JsonV>,
    project: Seq<char>,
    system: Seq<char>,
    command: Option<Seq<char>>,
)
    requires
        parsed_json(text) == Some(with_preference_v(doc, project, system, command)),
    ensures
        match parsed_json(text) {
            Some(d) => preference_v(d, project) == Some((system, command)),
            None => false,
        },
{
    law_read_after_write(doc, project, system, command);
}

/// Reading back what was written: once a preference is recorded for a
/// project, the preference read for that project is exactly the recorded
/// system and command, whatever the document held before.
pub proof fn law_read_after_write(
    doc: Option<JsonV>,
    project: Seq<char>,
    system: Seq<char>,
    command: Option<Seq<char>>,
)
    ensures
        preference_v(with_preference_v(doc, project, system, command), project) == Some(
            (system, command),
        ),
{
    reveal_strlit("system");
    reveal_strlit("command");
    assert("system"@[0] != "command"@[0]);
    let m = projects_v(doc).insert(project, entry_v(system, command));
    assert(m.contains_key(project));
    assert(m[project] == entry_v(system, command));
}

/// Recording a preference for one project leaves the preference of every
/// other project as it was.
pub proof fn law_other_projects_kept(
    doc: Option<JsonV>,
    project: Seq<char>,
    other: Seq<char>,
    system: Seq<char>,
    command: Option<Seq<char>>,
)
    requires
        project != other,
    ensures
        preference_v(with_preference_v(doc, project, system, command), other) == match doc {
            Some(d) => preference_v(d, other),
            None => None,
        },
{
    let m = projects_v(doc).insert(project, entry_v(system, command));
    assert(m.contains_key(other) == projects_v(doc).contains_key(other));
}

} // verus!
