use vstd::prelude::*;

verus! {

/// A JSON document as the library reads and writes it. A number is kept as
/// the shortest decimal text that reads back as the same double, so that it
/// comes back unchanged when the document is written again.
#[derive(Debug, PartialEq, Eq)]
pub enum Json {
    Null,
    Bool(bool),
    Number(String),
    Str(String),
    Array(Vec<Json>),
    Object(Vec<(String, Json)>),
}

/// What a JSON document is: arrays are sequences, objects map keys to
/// values, whatever the order in which their members were listed.
pub enum JsonV {
    Null,
    Bool(bool),
    Number(Seq<char>),
    Str(Seq<char>),
    Array(Seq<JsonV>),
    Object(Map<Seq<char>, JsonV>),
}

/// The value a document denotes.
pub open spec fn json_v(j: Json) -> JsonV
    decreases j, 0int,
{
    match j {
        Json::Null => JsonV::Null,
        Json::Bool(b) => JsonV::Bool(b),
        Json::Number(n) => JsonV::Number(n@),
        Json::Str(s) => JsonV::Str(s@),
        Json::Array(a) => JsonV::Array(array_v(a@)),
        Json::Object(es) => JsonV::Object(object_v(es@)),
    }
}

/// The values of a sequence of documents.
pub open spec fn array_v(s: Seq<Json>) -> Seq<JsonV>
    decreases s, 1int,
{
    if s.len() == 0 {
        seq![]
    } else {
        array_v(s.subrange(0, s.len() - 1)).push(json_v(s[s.len() - 1]))
    }
}

/// The map of an object's members; where a key is listed twice, the first
/// listing counts, as a lookup from the front finds it.
pub open spec fn object_v(s: Seq<(String, Json)>) -> Map<Seq<char>, JsonV>
    decreases s, 1int,
{
    if s.len() == 0 {
        Map::empty()
    } else {
        object_v(s.subrange(1, s.len() as int)).insert(s[0].0@, json_v(s[0].1))
    }
}

/// Whether every object in a document lists each key once, as the objects
/// of a parsed document do.
pub open spec fn json_wf(j: Json) -> bool
    decreases j, 0int,
{
    match j {
        Json::Array(a) => array_wf(a@),
        Json::Object(es) => keys_v(es@).no_duplicates() && object_wf(es@),
        _ => true,
    }
}

pub open spec fn array_wf(s: Seq<Json>) -> bool
    decreases s, 1int,
{
    if s.len() == 0 {
        true
    } else {
        array_wf(s.subrange(0, s.len() - 1)) && json_wf(s[s.len() - 1])
    }
}

pub open spec fn object_wf(s: Seq<(String, Json)>) -> bool
    decreases s, 1int,
{
    if s.len() == 0 {
        true
    } else {
        object_wf(s.subrange(1, s.len() as int)) && json_wf(s[0].1)
    }
}

/// A listing is well formed exactly when each of its values is.
pub proof fn lemma_object_wf_all(s: Seq<(String, Json)>)
    ensures
        object_wf(s) <==> forall|i: int| 0 <= i < s.len() ==> json_wf(#[trigger] s[i].1),
    decreases s.len(),
{
    if s.len() > 0 {
        let t = s.subrange(1, s.len() as int);
        lemma_object_wf_all(t);
        if object_wf(s) {
            assert forall|i: int| 0 <= i < s.len() implies json_wf(#[trigger] s[i].1) by {
                if i > 0 {
                    assert(s[i] == t[i - 1]);
                }
            }
        }
        if forall|i: int| 0 <= i < s.len() ==> json_wf(#[trigger] s[i].1) {
            assert forall|i: int| 0 <= i < t.len() implies json_wf(#[trigger] t[i].1) by {
                assert(t[i] == s[i + 1]);
            }
        }
    }
}

/// A document whose numbers are written as their own text can be written.
pub proof fn lemma_kept_writable(j: JsonV)
    requires
        kept_v(j),
    ensures
        writable_v(j),
    decreases j,
{
    match j {
        JsonV::Array(a) => {
            assert forall|i: int| 0 <= i < a.len() implies writable_v(#[trigger] a[i]) by {
                lemma_kept_writable(a[i]);
            }
        },
        JsonV::Object(m) => {
            assert forall|k: Seq<char>| m.contains_key(k) implies writable_v(#[trigger] m[k]) by {
                lemma_kept_writable(m[k]);
            }
        },
        _ => {},
    }
}

/// The value of the first member listed under `k`.
pub open spec fn entry_for(s: Seq<(String, Json)>, k: Seq<char>) -> Option<Json>
    decreases s.len(),
{
    if s.len() == 0 {
        None
    } else if s[0].0@ == k {
        Some(s[0].1)
    } else {
        entry_for(s.subrange(1, s.len() as int), k)
    }
}

pub proof fn lemma_entry_for_wf(s: Seq<(String, Json)>, k: Seq<char>)
    requires
        object_wf(s),
    ensures
        entry_for(s, k) matches Some(v) ==> json_wf(v),
    decreases s.len(),
{
    if s.len() > 0 && s[0].0@ != k {
        lemma_entry_for_wf(s.subrange(1, s.len() as int), k);
    }
}

pub proof fn lemma_entry_for_skip(s: Seq<(String, Json)>, i: int, k: Seq<char>)
    requires
        0 <= i <= s.len(),
        forall|j: int| 0 <= j < i ==> s[j].0@ != k,
    ensures
        entry_for(s, k) == entry_for(s.subrange(i, s.len() as int), k),
    decreases i,
{
    if i > 0 {
        let t = s.subrange(1, s.len() as int);
        assert forall|j: int| 0 <= j < i - 1 implies t[j].0@ != k by {
            assert(t[j] == s[j + 1]);
        }
        lemma_entry_for_skip(t, i - 1, k);
        assert(t.subrange(i - 1, t.len() as int) == s.subrange(i, s.len() as int));
    } else {
        assert(s.subrange(0, s.len() as int) == s);
    }
}

/// The map of a listing holds exactly its keys; it is finite.
pub proof fn lemma_object_v_keys(s: Seq<(String, Json)>)
    ensures
        object_v(s).dom() == keys_v(s).to_set(),
        object_v(s).dom().finite(),
{
    assert forall|k: Seq<char>| object_v(s).dom().contains(k) <==> keys_v(s).to_set().contains(k) by {
        lemma_object_v_dom(s, k);
    }
    assert(object_v(s).dom() =~= keys_v(s).to_set());
    vstd::seq_lib::seq_to_set_is_finite(keys_v(s));
}

impl View for Json {
    type V = JsonV;

    open spec fn view(&self) -> JsonV {
        json_v(*self)
    }
}

/// The keys of an object's members, in the order they are listed.
pub open spec fn keys_v(s: Seq<(String, Json)>) -> Seq<Seq<char>> {
    s.map_values(|e: (String, Json)| e.0@)
}

pub proof fn lemma_object_v_dom(s: Seq<(String, Json)>, k: Seq<char>)
    ensures
        object_v(s).contains_key(k) <==> keys_v(s).contains(k),
    decreases s.len(),
{
    if s.len() > 0 {
        let t = s.subrange(1, s.len() as int);
        lemma_object_v_dom(t, k);
        if keys_v(s).contains(k) && s[0].0@ != k {
            let i = choose|i: int| 0 <= i < keys_v(s).len() && keys_v(s)[i] == k;
            assert(i != 0);
            assert(keys_v(t)[i - 1] == k);
        }
        if keys_v(t).contains(k) {
            let i = choose|i: int| 0 <= i < keys_v(t).len() && keys_v(t)[i] == k;
            assert(keys_v(s)[i + 1] == k);
        }
        if s[0].0@ == k {
            assert(keys_v(s)[0] == k);
        }
    }
}

/// Members before index `i` whose keys differ from `k` do not change what
/// the object holds at `k`.
pub proof fn lemma_object_v_skip(s: Seq<(String, Json)>, i: int, k: Seq<char>)
    requires
        0 <= i <= s.len(),
        forall|j: int| 0 <= j < i ==> s[j].0@ != k,
    ensures
        object_v(s).contains_key(k) == object_v(s.subrange(i, s.len() as int)).contains_key(k),
        object_v(s).contains_key(k) ==> object_v(s)[k] == object_v(
            s.subrange(i, s.len() as int),
        )[k],
    decreases i,
{
    if i > 0 {
        let t = s.subrange(1, s.len() as int);
        assert forall|j: int| 0 <= j < i - 1 implies t[j].0@ != k by {
            assert(t[j] == s[j + 1]);
        }
        lemma_object_v_skip(t, i - 1, k);
        assert(t.subrange(i - 1, t.len() as int) == s.subrange(i, s.len() as int));
    } else {
        assert(s.subrange(0, s.len() as int) == s);
    }
}

/// The member of `entries` listed under `key`, if any: the first one, which
/// is the one the object's map holds.
pub fn lookup<'a>(entries: &'a Vec<(String, Json)>, key: &str) -> (r: Option<&'a Json>)
    ensures
        r is Some <==> object_v(entries@).contains_key(key@),
        r matches Some(v) ==> object_v(entries@)[key@] == json_v(*v),
        match r {
            Some(v) => entry_for(entries@, key@) == Some(*v),
            None => entry_for(entries@, key@) is None,
        },
{
    let k = key.to_owned();
    let mut i: usize = 0;
    while i < entries.len()
        invariant
            i <= entries.len(),
            k@ == key@,
            forall|j: int| 0 <= j < i ==> entries@[j].0@ != key@,
        decreases entries.len() - i,
    {
        if entries[i].0 == k {
            proof {
                lemma_object_v_skip(entries@, i as int, key@);
                lemma_entry_for_skip(entries@, i as int, key@);
                let t = entries@.subrange(i as int, entries@.len() as int);
                assert(t[0] == entries@[i as int]);
            }
            return Some(&entries[i].1);
        }
        i = i + 1;
    }
    proof {
        lemma_object_v_skip(entries@, i as int, key@);
        lemma_entry_for_skip(entries@, i as int, key@);
        assert(entries@.subrange(i as int, entries@.len() as int).len() == 0);
    }
    None
}

/// The member of an object document listed under `key`; nothing when the
/// document is not an object or has no such member.
pub fn get_field<'a>(j: &'a Json, key: &str) -> (r: Option<&'a Json>)
    ensures
        match j@ {
            JsonV::Object(m) => (r is Some <==> m.contains_key(key@)) && (r matches Some(v)
                ==> m[key@] == v@),
            _ => r is None,
        },
{
    match j {
        Json::Object(entries) => lookup(entries, key),
        _ => None,
    }
}

/// The text of a string document.
pub fn as_text(j: &Json) -> (r: Option<String>)
    ensures
        match j@ {
            JsonV::Str(s) => r matches Some(t) && t@ == s,
            _ => r is None,
        },
{
    match j {
        Json::Str(s) => Some(s.clone()),
        _ => None,
    }
}

/// The keys of an object document, in the order its members are listed.
pub fn object_keys(j: &Json) -> (r: Option<Vec<String>>)
    ensures
        match j {
            Json::Object(es) => r matches Some(ks) && crate::command::strs(ks@) == keys_v(es@),
            _ => r is None,
        },
{
    match j {
        Json::Object(entries) => {
            let mut ks: Vec<String> = Vec::new();
            let mut i: usize = 0;
            while i < entries.len()
                invariant
                    i <= entries.len(),
                    crate::command::strs(ks@) == keys_v(entries@).take(i as int),
                decreases entries.len() - i,
            {
                let k = entries[i].0.clone();
                proof {
                    assert(crate::command::strs(ks@.push(k)) == crate::command::strs(ks@).push(
                        k@,
                    ));
                    assert(keys_v(entries@).take(i + 1) == keys_v(entries@).take(i as int).push(
                        entries@[i as int].0@,
                    ));
                }
                ks.push(k);
                i = i + 1;
            }
            assert(keys_v(entries@).take(entries.len() as int) == keys_v(entries@));
            Some(ks)
        },
        _ => None,
    }
}

/// What tinyjson's parser (`str::parse::<tinyjson::JsonValue>`) makes of a
/// text: the document it denotes, or the message of its error.
pub uninterp spec fn parse_outcome(text: Seq<char>) -> Result<JsonV, Seq<char>>;

/// The document a text denotes, or nothing when it is not JSON.
pub open spec fn parsed_json(text: Seq<char>) -> Option<JsonV> {
    match parse_outcome(text) {
        Ok(d) => Some(d),
        Err(_) => None,
    }
}

/// The message tinyjson's parser gives for a text that is not JSON.
pub open spec fn parse_message(text: Seq<char>) -> Seq<char> {
    match parse_outcome(text) {
        Ok(_) => seq![],
        Err(m) => m,
    }
}

/// The messages a failed write of a document can carry: a number's text
/// that is not a number, or a number tinyjson refuses to write.
pub open spec fn write_failure(m: Seq<char>) -> bool {
    m == "a number's text is not a number"@ || m == "Generate error: JSON cannot represent inf"@ || m
        == "Generate error: JSON cannot represent NaN"@
}

/// What tinyjson writes for a number given by this text: the text of the
/// double it reads as, or nothing when it cannot write one (the text is not
/// a number, or reads as an infinite double).
pub uninterp spec fn number_written(text: Seq<char>) -> Option<Seq<char>>;

/// Whether tinyjson can write every number of a document.
pub open spec fn writable_v(j: JsonV) -> bool
    decreases j,
{
    match j {
        JsonV::Number(t) => number_written(t) is Some,
        JsonV::Array(a) => forall|i: int| 0 <= i < a.len() ==> writable_v(#[trigger] a[i]),
        JsonV::Object(m) => forall|k: Seq<char>| m.contains_key(k) ==> writable_v(#[trigger] m[k]),
        _ => true,
    }
}

/// Whether tinyjson writes every number of a document as the text it has.
pub open spec fn kept_v(j: JsonV) -> bool
    decreases j,
{
    match j {
        JsonV::Number(t) => number_written(t) == Some(t),
        JsonV::Array(a) => forall|i: int| 0 <= i < a.len() ==> kept_v(#[trigger] a[i]),
        JsonV::Object(m) => forall|k: Seq<char>| m.contains_key(k) ==> kept_v(#[trigger] m[k]),
        _ => true,
    }
}

/// Whether every number of a document is either written back as the text
/// it has or cannot be written at all, as for the numbers of a parsed
/// document.
pub open spec fn settled_v(j: JsonV) -> bool
    decreases j,
{
    match j {
        JsonV::Number(t) => number_written(t) is None || number_written(t) == Some(t),
        JsonV::Array(a) => forall|i: int| 0 <= i < a.len() ==> settled_v(#[trigger] a[i]),
        JsonV::Object(m) => forall|k: Seq<char>| m.contains_key(k) ==> settled_v(#[trigger] m[k]),
        _ => true,
    }
}

/// A settled document whose numbers can all be written keeps them.
pub proof fn lemma_settled_writable_kept(j: JsonV)
    requires
        settled_v(j),
        writable_v(j),
    ensures
        kept_v(j),
    decreases j,
{
    match j {
        JsonV::Array(a) => {
            assert forall|i: int| 0 <= i < a.len() implies kept_v(#[trigger] a[i]) by {
                lemma_settled_writable_kept(a[i]);
            }
        },
        JsonV::Object(m) => {
            assert forall|k: Seq<char>| m.contains_key(k) implies kept_v(#[trigger] m[k]) by {
                lemma_settled_writable_kept(m[k]);
            }
        },
        _ => {},
    }
}

/// tinyjson's document type, carried through the conversions below.
#[verifier::external_type_specification]
#[verifier::external_body]
pub struct ExTinyJsonValue(tinyjson::JsonValue);

/// Rebuilds a tinyjson value as a library document, member for member; a
/// number is kept as the shortest text that reads back as the same double.
#[verifier::external_body]
fn json_from_tiny(v: tinyjson::JsonValue) -> Json {
    match v {
        tinyjson::JsonValue::Number(n) => Json::Number(n.to_string()),
        tinyjson::JsonValue::Boolean(b) => Json::Bool(b),
        tinyjson::JsonValue::String(s) => Json::Str(s),
        tinyjson::JsonValue::Null => Json::Null,
        tinyjson::JsonValue::Array(a) => Json::Array(a.into_iter().map(json_from_tiny).collect()),
        tinyjson::JsonValue::Object(o) => Json::Object(
            o.into_iter().map(|(k, x)| (k, json_from_tiny(x))).collect(),
        ),
    }
}

/// Rebuilds a library document as a tinyjson value, member for member; a
/// number's text is read as a double, and a text that is not a number
/// gives nothing.
#[verifier::external_body]
fn json_to_tiny(j: &Json) -> Option<tinyjson::JsonValue> {
    Some(match j {
        Json::Null => tinyjson::JsonValue::Null,
        Json::Bool(b) => tinyjson::JsonValue::Boolean(*b),
        Json::Number(n) => tinyjson::JsonValue::Number(n.parse().ok()?),
        Json::Str(s) => tinyjson::JsonValue::String(s.clone()),
        Json::Array(a) => tinyjson::JsonValue::Array(a.iter().map(json_to_tiny).collect::<Option<_>>()?),
        Json::Object(es) => tinyjson::JsonValue::Object(
            es.iter().map(|(k, x)| Some((k.clone(), json_to_tiny(x)?))).collect::<Option<_>>()?,
        ),
    })
}

/// Parses JSON text with tinyjson (`str::parse::<tinyjson::JsonValue>`).
/// Claimed: the result is a document exactly when the parser accepts the
/// text, that document is the one `parsed_json` names, and each of its
/// objects lists a key once (tinyjson keeps objects in hash maps); on
/// failure the error is the parser's message. Each number is kept as the
/// text that Rust writes for the double read, so tinyjson writes it back as
/// that text unless it is infinite (`settled_v`). The order of an object's
/// members comes from a hash map walk and is not stated; the object's map
/// is.
#[verifier::external_body]
pub(crate) fn parse_json(text: &str) -> (r: Result<Json, String>)
    ensures
        r is Ok <==> parse_outcome(text@) is Ok,
        r matches Ok(j) ==> parsed_json(text@) == Some(j@) && json_wf(j),
        r matches Ok(j) ==> settled_v(j@),
        r matches Err(m) ==> parse_message(text@) == m@,
{
    match text.parse::<tinyjson::JsonValue>() {
        Ok(v) => Ok(json_from_tiny(v)),
        Err(e) => Err(e.to_string()),
    }
}

/// Writes a document as compact JSON text with tinyjson
/// (`tinyjson::JsonValue::stringify`). Claimed for a document whose objects
/// list each key once, as its source shows: writing fails exactly when a
/// number cannot be written (its text is not a number or reads as an
/// infinite double); strings are escaped so that the parser reads them
/// back, and numbers are written as Rust writes the double, so when every
/// number is written as the text it has, parsing the result gives the
/// document back; a lone number is written as `number_written` says. A
/// failure carries tinyjson's message for the number it refused (or this
/// module's, for a text that is not a number). The order of an object's members follows a hash map walk
/// and is not stated; the message of a failure is the generator's.
#[verifier::external_body]
pub(crate) fn stringify_json(j: &Json) -> (r: Result<String, String>)
    ensures
        json_wf(*j) ==> (r is Ok <==> writable_v(j@)),
        r matches Ok(s) ==> (json_wf(*j) && kept_v(j@) ==> parsed_json(s@) == Some(j@)),
        r matches Ok(s) ==> (*j matches Json::Number(t) ==> number_written(t@) == Some(s@)),
        r matches Err(m) ==> write_failure(m@),
{
    match json_to_tiny(j) {
        Some(v) => match v.stringify() {
            Ok(s) => Ok(s),
            Err(e) => Err(e.to_string()),
        },
        None => Err("a number's text is not a number".to_string()),
    }
}

} // verus!
