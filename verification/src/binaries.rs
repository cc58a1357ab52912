use vstd::prelude::*;
use crate::command::{opt_v, strs};
use crate::select::{select_option, Selection};
use crate::text::{chars_of, extension, last_index_of, lemma_last_index_of};

verus! {

/// The directory names that are never searched for executables.
pub open spec fn skipped_dirs() -> Seq<Seq<char>> {
    seq![
        ".git"@,
        "node_modules"@,
        ".venv"@,
        "zig-cache"@,
        "CMakeFiles"@,
        ".swiftpm"@,
        ".dart_tool"@,
        "__pycache__"@,
        "obj"@,
    ]
}

/// Whether the search passes over a directory entry: hidden names and the
/// usual tool and dependency directories.
pub open spec fn is_skipped(name: Seq<char>) -> bool {
    (name.len() > 0 && name[0] == '.') || skipped_dirs().contains(name)
}

/// The search passes over exactly the hidden entries (names that start with
/// a dot) and the tool and dependency directories `.git`, `node_modules`,
/// `.venv`, `zig-cache`, `CMakeFiles`, `.swiftpm`, `.dart_tool`,
/// `__pycache__` and `obj`.
pub proof fn law_skipped_names(name: Seq<char>)
    ensures
        is_skipped(name) <==> ((name.len() > 0 && name[0] == '.') || name == ".git"@ || name
            == "node_modules"@ || name == ".venv"@ || name == "zig-cache"@ || name == "CMakeFiles"@
            || name == ".swiftpm"@ || name == ".dart_tool"@ || name == "__pycache__"@ || name
            == "obj"@),
{
    let d = skipped_dirs();
    if d.contains(name) {
        let i = choose|i: int| 0 <= i < d.len() && d[i] == name;
        assert(0 <= i < 9);
    }
    if name == ".git"@ {
        assert(d[0] == name);
    } else if name == "node_modules"@ {
        assert(d[1] == name);
    } else if name == ".venv"@ {
        assert(d[2] == name);
    } else if name == "zig-cache"@ {
        assert(d[3] == name);
    } else if name == "CMakeFiles"@ {
        assert(d[4] == name);
    } else if name == ".swiftpm"@ {
        assert(d[5] == name);
    } else if name == ".dart_tool"@ {
        assert(d[6] == name);
    } else if name == "__pycache__"@ {
        assert(d[7] == name);
    } else if name == "obj"@ {
        assert(d[8] == name);
    }
}

/// A listing is searched further only below its directories that are not
/// passed over, and only its executables that are not passed over are
/// found: every directory the search goes into, and every executable it
/// finds, comes from such an entry, and every such entry is taken.
pub proof fn law_listing_skips(es: Seq<EntryV>)
    ensures
        forall|k: int|
            #![trigger subdirs(es)[k]]
            0 <= k < subdirs(es).len() ==> exists|j: int|
                0 <= j < es.len() && es[j].is_dir && !is_skipped(es[j].name) && es[j].id
                    == subdirs(es)[k],
        forall|j: int|
            #![trigger es[j]]
            0 <= j < es.len() && es[j].is_dir && !is_skipped(es[j].name) ==> subdirs(es).contains(
                es[j].id,
            ),
        forall|k: int|
            #![trigger executables(es)[k]]
            0 <= k < executables(es).len() ==> exists|j: int|
                0 <= j < es.len() && !es[j].is_dir && es[j].executable && !is_skipped(es[j].name)
                    && executables(es)[k] == (FoundV { path: es[j].path, modified: es[j].modified }),
        forall|j: int|
            #![trigger es[j]]
            0 <= j < es.len() && !es[j].is_dir && es[j].executable && !is_skipped(es[j].name)
                ==> executables(es).contains(FoundV { path: es[j].path, modified: es[j].modified }),
    decreases es.len(),
{
    if es.len() > 0 {
        let init = es.drop_last();
        let n = es.len() - 1;
        law_listing_skips(init);
        assert forall|k: int| #![trigger subdirs(es)[k]] 0 <= k < subdirs(es).len() implies exists|j: int|
            0 <= j < es.len() && es[j].is_dir && !is_skipped(es[j].name) && es[j].id
                == subdirs(es)[k] by {
            if k < subdirs(init).len() {
                let j = choose|j: int|
                    0 <= j < init.len() && init[j].is_dir && !is_skipped(init[j].name) && init[j].id
                        == subdirs(init)[k];
                assert(es[j] == init[j]);
            } else {
                assert(es[n].id == subdirs(es)[k]);
            }
        }
        assert forall|j: int|
            #![trigger es[j]]
            0 <= j < es.len() && es[j].is_dir && !is_skipped(es[j].name) implies subdirs(es).contains(
                es[j].id,
            ) by {
            if j < n {
                assert(es[j] == init[j]);
                let k = choose|k: int| 0 <= k < subdirs(init).len() && subdirs(init)[k] == init[j].id;
                assert(subdirs(es)[k] == subdirs(init)[k]);
            } else {
                assert(subdirs(es)[subdirs(init).len() as int] == es[j].id);
            }
        }
        assert forall|k: int| #![trigger executables(es)[k]] 0 <= k < executables(es).len() implies exists|j: int|
            0 <= j < es.len() && !es[j].is_dir && es[j].executable && !is_skipped(es[j].name)
                && executables(es)[k] == (FoundV { path: es[j].path, modified: es[j].modified }) by {
            if k < executables(init).len() {
                let j = choose|j: int|
                    0 <= j < init.len() && !init[j].is_dir && init[j].executable && !is_skipped(
                        init[j].name,
                    ) && executables(init)[k] == (FoundV {
                        path: init[j].path,
                        modified: init[j].modified,
                    });
                assert(es[j] == init[j]);
            } else {
                assert(executables(es)[k] == (FoundV { path: es[n].path, modified: es[n].modified }));
            }
        }
        assert forall|j: int|
            #![trigger es[j]]
            0 <= j < es.len() && !es[j].is_dir && es[j].executable && !is_skipped(es[j].name)
                implies executables(es).contains(
                FoundV { path: es[j].path, modified: es[j].modified },
            ) by {
            let f = FoundV { path: es[j].path, modified: es[j].modified };
            if j < n {
                assert(es[j] == init[j]);
                let k = choose|k: int| 0 <= k < executables(init).len() && executables(init)[k] == f;
                assert(executables(es)[k] == executables(init)[k]);
            } else {
                assert(executables(es)[executables(init).len() as int] == f);
            }
        }
    }
}

/// Whether the search passes over a directory entry.
pub fn skip_entry(name: &str) -> (r: bool)
    ensures
        r == is_skipped(name@),
{
    let cs = chars_of(name);
    if cs.len() > 0 && cs[0] == '.' {
        return true;
    }
    let skip = [
        ".git",
        "node_modules",
        ".venv",
        "zig-cache",
        "CMakeFiles",
        ".swiftpm",
        ".dart_tool",
        "__pycache__",
        "obj",
    ];
    assert(crate::command::slices(skip@) == skipped_dirs());
    let n = name.to_owned();
    let mut i: usize = 0;
    while i < skip.len()
        invariant
            i <= skip.len(),
            n@ == name@,
            crate::command::slices(skip@) == skipped_dirs(),
            forall|j: int| 0 <= j < i ==> skipped_dirs()[j] != name@,
        decreases skip.len() - i,
    {
        let d = skip[i].to_owned();
        if d == n {
            assert(skipped_dirs()[i as int] == name@);
            return true;
        }
        i = i + 1;
    }
    false
}

/// Whether file permissions mark a regular file as executable by someone.
pub open spec fn mode_is_executable(is_file: bool, mode: u32) -> bool {
    is_file && (mode & 0o111u32) != 0
}

/// On Unix, a regular file with an execute permission bit set is
/// executable.
pub fn is_executable(is_file: bool, mode: u32) -> (r: bool)
    ensures
        r == mode_is_executable(is_file, mode),
{
    is_file && (mode & 0o111u32) != 0
}

/// A character with ASCII capitals turned to small letters.
pub open spec fn ascii_lower(c: char) -> char {
    if 'A' <= c && c <= 'Z' {
        ((c as u32) + 32) as char
    } else {
        c
    }
}

/// Whether `s` is `word` (in small letters) up to ASCII case.
pub open spec fn same_ignoring_case(s: Seq<char>, word: Seq<char>) -> bool {
    s.len() == word.len() && forall|i: int| 0 <= i < s.len() ==> ascii_lower(#[trigger] s[i]) == word[i]
}

/// Whether a file name has an extension that Windows runs: `exe`, `bat` or
/// `cmd`, in any case.
pub open spec fn name_is_executable(name: Seq<char>) -> bool {
    match extension(name) {
        Some(e) => same_ignoring_case(e, "exe"@) || same_ignoring_case(e, "bat"@)
            || same_ignoring_case(e, "cmd"@),
        None => false,
    }
}

fn lower(c: char) -> (r: char)
    ensures
        r == ascii_lower(c),
{
    if 'A' <= c && c <= 'Z' {
        let u = (c as u8) + 32;
        u as char
    } else {
        c
    }
}

fn is_word_ignoring_case(s: &Vec<char>, from: usize, word: &str) -> (r: bool)
    requires
        from <= s.len(),
    ensures
        r == same_ignoring_case(s@.skip(from as int), word@),
{
    let w = chars_of(word);
    if s.len() - from != w.len() {
        return false;
    }
    let mut i: usize = 0;
    while i < w.len()
        invariant
            i <= w.len(),
            from <= s.len(),
            s.len() - from == w.len(),
            w@ == word@,
            forall|j: int| 0 <= j < i ==> ascii_lower(s@.skip(from as int)[j]) == w@[j],
        decreases w.len() - i,
    {
        if lower(s[from + i]) != w[i] {
            assert(ascii_lower(s@.skip(from as int)[i as int]) != w@[i as int]);
            return false;
        }
        i = i + 1;
    }
    true
}

/// On Windows, a file with an `exe`, `bat` or `cmd` extension is
/// executable.
pub fn is_executable_name(name: &str) -> (r: bool)
    ensures
        r == name_is_executable(name@),
{
    let n = chars_of(name);
    proof {
        reveal_strlit("..");
    }
    if n.len() == 2 && n[0] == '.' && n[1] == '.' {
        assert(n@ == ".."@);
        return false;
    }
    assert(n@ != ".."@) by {
        if n@ == ".."@ {
            assert(n@.len() == 2 && n@[0] == '.' && n@[1] == '.');
        }
    }
    let mut i = n.len();
    assert(n@.take(n@.len() as int) == n@);
    while i > 0 && n[i - 1] != '.'
        invariant
            i <= n.len(),
            forall|j: int| i <= j < n.len() ==> n@[j] != '.',
            last_index_of(n@, '.') == last_index_of(n@.take(i as int), '.'),
        decreases i,
    {
        assert(n@.take(i as int).drop_last() == n@.take(i - 1));
        i = i - 1;
    }
    proof {
        lemma_last_index_of(n@.take(i as int), '.');
        if i > 0 {
            assert(n@.take(i as int).last() == '.');
        }
        assert(last_index_of(n@, '.') == i - 1) by {
            if i == 0 {
                assert(n@.take(0).len() == 0);
            }
        }
    }
    if i <= 1 {
        return false;
    }
    is_word_ignoring_case(&n, i, "exe") || is_word_ignoring_case(&n, i, "bat")
        || is_word_ignoring_case(&n, i, "cmd")
}

/// An entry of a directory listing, as the search needs it.
#[derive(Debug, PartialEq, Eq)]
pub struct Entry {
    /// The entry's file name.
    pub name: String,
    /// The number by which the program knows the entry's path; the
    /// directory searched from is number zero.
    pub id: usize,
    /// The entry's path as text, if it is valid Unicode.
    pub path: Option<String>,
    pub is_dir: bool,
    /// Whether the entry is an executable file.
    pub executable: bool,
    /// When the entry was last modified, in nanoseconds since the Unix epoch
    /// (zero when unknown).
    pub modified: u128,
}

/// What an entry is, over text.
pub struct EntryV {
    pub name: Seq<char>,
    pub id: usize,
    pub path: Option<Seq<char>>,
    pub is_dir: bool,
    pub executable: bool,
    pub modified: u128,
}

impl View for Entry {
    type V = EntryV;

    open spec fn view(&self) -> EntryV {
        EntryV {
            name: self.name@,
            id: self.id,
            path: opt_v(self.path),
            is_dir: self.is_dir,
            executable: self.executable,
            modified: self.modified,
        }
    }
}

/// The views of a sequence of entries.
pub open spec fn entries_v(es: Seq<Entry>) -> Seq<EntryV> {
    es.map_values(|e: Entry| e@)
}

/// An executable found by the search: its path as text (if it is valid
/// Unicode) and when it was modified.
#[derive(Debug, PartialEq, Eq)]
pub struct Found {
    pub path: Option<String>,
    pub modified: u128,
}

/// What a found executable is, over text.
pub struct FoundV {
    pub path: Option<Seq<char>>,
    pub modified: u128,
}

impl View for Found {
    type V = FoundV;

    open spec fn view(&self) -> FoundV {
        FoundV { path: opt_v(self.path), modified: self.modified }
    }
}

/// The views of a sequence of found executables.
pub open spec fn founds_v(fs: Seq<Found>) -> Seq<FoundV> {
    fs.map_values(|f: Found| f@)
}

/// The directories of a listing that the search goes into, in listing
/// order.
pub open spec fn subdirs(es: Seq<EntryV>) -> Seq<usize>
    decreases es.len(),
{
    if es.len() == 0 {
        seq![]
    } else {
        let rest = subdirs(es.drop_last());
        let e = es.last();
        if !is_skipped(e.name) && e.is_dir {
            rest.push(e.id)
        } else {
            rest
        }
    }
}

/// The executables of a listing, in listing order.
pub open spec fn executables(es: Seq<EntryV>) -> Seq<FoundV>
    decreases es.len(),
{
    if es.len() == 0 {
        seq![]
    } else {
        let rest = executables(es.drop_last());
        let e = es.last();
        if !is_skipped(e.name) && !e.is_dir && e.executable {
            rest.push(FoundV { path: e.path, modified: e.modified })
        } else {
            rest
        }
    }
}

/// The place of the newest executable: the last of those modified last.
pub open spec fn newest_index(fs: Seq<FoundV>) -> int
    decreases fs.len(),
{
    if fs.len() <= 1 {
        0
    } else {
        let i = newest_index(fs.drop_last());
        if fs.last().modified >= fs[i].modified {
            fs.len() - 1
        } else {
            i
        }
    }
}

/// The executables, newest first; of those modified at the same time, the
/// one found later comes first.
pub open spec fn newest_first(fs: Seq<FoundV>) -> Seq<FoundV>
    decreases fs.len(),
{
    if fs.len() == 0 {
        seq![]
    } else {
        let i = newest_index(fs);
        proof {
            lemma_newest_index(fs);
        }
        seq![fs[i]] + newest_first(fs.remove(i))
    }
}

/// The paths of the executables that are valid Unicode, in order.
pub open spec fn paths(fs: Seq<FoundV>) -> Seq<Seq<char>>
    decreases fs.len(),
{
    if fs.len() == 0 {
        seq![]
    } else {
        let rest = paths(fs.drop_last());
        match fs.last().path {
            Some(p) => rest.push(p),
            None => rest,
        }
    }
}

pub proof fn lemma_newest_index(fs: Seq<FoundV>)
    requires
        fs.len() > 0,
    ensures
        0 <= newest_index(fs) < fs.len(),
        forall|j: int| 0 <= j < fs.len() ==> (#[trigger] fs[j]).modified <= fs[newest_index(fs)].modified,
    decreases fs.len(),
{
    if fs.len() > 1 {
        let p = fs.drop_last();
        lemma_newest_index(p);
        assert forall|j: int| 0 <= j < fs.len() implies (#[trigger] fs[j]).modified
            <= fs[newest_index(fs)].modified by {
            if j < fs.len() - 1 {
                assert(fs[j] == p[j]);
            }
        }
    }
}

/// The listing's subdirectories and executables, added to what the search
/// holds.
fn absorb(es: &Vec<Entry>, pending: &mut Vec<usize>, found: &mut Vec<Found>)
    ensures
        final(pending)@ == old(pending)@ + subdirs(entries_v(es@)),
        founds_v(final(found)@) == founds_v(old(found)@) + executables(entries_v(es@)),
{
    let ghost p0 = pending@;
    let ghost f0 = founds_v(found@);
    let mut i: usize = 0;
    while i < es.len()
        invariant
            i <= es.len(),
            pending@ == p0 + subdirs(entries_v(es@).take(i as int)),
            founds_v(found@) == f0 + executables(entries_v(es@).take(i as int)),
        decreases es.len() - i,
    {
        let e = &es[i];
        let ghost pre = entries_v(es@).take(i as int);
        let ghost nxt = entries_v(es@).take(i + 1);
        assert(nxt.drop_last() == pre);
        assert(nxt.last() == e@);
        if !skip_entry(e.name.as_str()) {
            if e.is_dir {
                pending.push(e.id);
            } else if e.executable {
                let f = Found { path: e.path.clone(), modified: e.modified };
                assert(f@ == (FoundV { path: e@.path, modified: e@.modified }));
                assert(founds_v(found@.push(f)) == founds_v(found@).push(f@));
                found.push(f);
            }
        }
        i = i + 1;
    }
    assert(entries_v(es@).take(es.len() as int) == entries_v(es@));
}

/// The executables, newest first.
pub fn order_newest_first(fs: Vec<Found>) -> (r: Vec<Found>)
    ensures
        founds_v(r@) == newest_first(founds_v(fs@)),
{
    let mut rest = fs;
    let mut out: Vec<Found> = Vec::new();
    let ghost whole = founds_v(rest@);
    while rest.len() > 0
        invariant
            founds_v(out@) + newest_first(founds_v(rest@)) == newest_first(whole),
        decreases rest.len(),
    {
        let mut best: usize = 0;
        let mut j: usize = 1;
        assert(founds_v(rest@).take(1).drop_last().len() == 0);
        while j < rest.len()
            invariant
                1 <= j <= rest.len(),
                best < j,
                best == newest_index(founds_v(rest@).take(j as int)),
            decreases rest.len() - j,
        {
            let ghost t = founds_v(rest@).take(j + 1);
            assert(t.drop_last() == founds_v(rest@).take(j as int));
            if rest[j].modified >= rest[best].modified {
                best = j;
            }
            j = j + 1;
        }
        assert(founds_v(rest@).take(rest.len() as int) == founds_v(rest@));
        let ghost before = founds_v(rest@);
        let f = rest.remove(best);
        proof {
            assert(founds_v(rest@) == before.remove(best as int));
            assert(founds_v(out@.push(f)) == founds_v(out@).push(f@));
            assert(newest_first(before) == seq![before[best as int]] + newest_first(
                before.remove(best as int),
            ));
            assert(founds_v(out@).push(f@) + newest_first(founds_v(rest@)) == founds_v(out@) + (
            seq![f@] + newest_first(founds_v(rest@))));
        }
        out.push(f);
    }
    assert(founds_v(out@) + newest_first(founds_v(rest@)) == founds_v(out@));
    out
}

/// The paths that are valid Unicode, in order.
fn path_texts(fs: &Vec<Found>) -> (r: Vec<String>)
    ensures
        strs(r@) == paths(founds_v(fs@)),
{
    let mut r: Vec<String> = Vec::new();
    let mut i: usize = 0;
    while i < fs.len()
        invariant
            i <= fs.len(),
            strs(r@) == paths(founds_v(fs@).take(i as int)),
        decreases fs.len() - i,
    {
        let ghost t = founds_v(fs@).take(i + 1);
        assert(t.drop_last() == founds_v(fs@).take(i as int));
        assert(t.last() == fs@[i as int]@);
        match &fs[i].path {
            Some(p) => {
                let q = p.clone();
                assert(strs(r@.push(q)) == strs(r@).push(q@));
                r.push(q);
            },
            None => {},
        }
        i = i + 1;
    }
    assert(founds_v(fs@).take(fs.len() as int) == founds_v(fs@));
    r
}

/// Where the search for the newest executable stands between actions.
#[derive(Debug, PartialEq, Eq)]
pub enum SearchStage {
    /// Nothing done yet; the directory to search.
    Begin(String),
    /// A directory listing was requested; the directory searched from, the
    /// directories still to list, and the executables found so far.
    Walking { root: String, pending: Vec<usize>, found: Vec<Found> },
    /// The user was asked which executable to run.
    Choosing,
    /// The chosen executable is running.
    Running,
    /// The search is over.
    Over,
}

/// One thing for the program to do on behalf of the search.
#[derive(Debug, PartialEq, Eq)]
pub enum SearchAction {
    /// List the directory with this number (`SearchEvent::Listed`, with
    /// nothing when it cannot be listed).
    List(usize),
    /// Warn the user; the search is over.
    Warn(String),
    /// Ask the user to pick one of `options` (`SearchEvent::Picked`).
    Ask { prompt: String, options: Vec<String> },
    /// Tell the user, then run this executable on the terminal with no
    /// arguments; its failure is the build's.
    Run(String),
    /// The search is over.
    Finish,
}

/// What a search action is, over text.
pub enum SearchActionV {
    List(usize),
    Warn(Seq<char>),
    Ask { prompt: Seq<char>, options: Seq<Seq<char>> },
    Run(Seq<char>),
    Finish,
}

impl View for SearchAction {
    type V = SearchActionV;

    open spec fn view(&self) -> SearchActionV {
        match self {
            SearchAction::List(d) => SearchActionV::List(*d),
            SearchAction::Warn(m) => SearchActionV::Warn(m@),
            SearchAction::Ask { prompt, options } => SearchActionV::Ask {
                prompt: prompt@,
                options: strs(options@),
            },
            SearchAction::Run(p) => SearchActionV::Run(p@),
            SearchAction::Finish => SearchActionV::Finish,
        }
    }
}

/// What the program reports back to the search.
#[derive(Debug, PartialEq, Eq)]
pub enum SearchEvent {
    /// Nothing has been done yet.
    Start,
    /// The entries of the directory last asked for, if it could be listed.
    Listed(Option<Vec<Entry>>),
    /// The executable the user picked.
    Picked(String),
    /// The action completed.
    Done,
}

/// The search ends.
pub open spec fn search_over(next: SearchStage, act: SearchActionV) -> bool {
    next is Over && act == SearchActionV::Finish
}

/// The warning when nothing was found.
pub open spec fn nothing_found(root: Seq<char>) -> Seq<char> {
    "No executables found in "@ + root
}

/// Once every directory was listed: nothing found is a warning; otherwise
/// the executables are offered newest first (one is run without asking).
pub open spec fn conclude_v(root: Seq<char>, found: Seq<FoundV>, next: SearchStage, act: SearchActionV) -> bool {
    if found.len() == 0 {
        next is Over && act == SearchActionV::Warn(nothing_found(root))
    } else {
        let options = paths(newest_first(found));
        if options.len() == 0 {
            search_over(next, act)
        } else if options.len() == 1 {
            next is Running && act == SearchActionV::Run(options[0])
        } else {
            next is Choosing && act == SearchActionV::Ask {
                prompt: "Select executable to run"@,
                options,
            }
        }
    }
}

/// Continue the walk: list the directory pushed last, or conclude.
pub open spec fn walk_v(
    root: Seq<char>,
    pending: Seq<usize>,
    found: Seq<FoundV>,
    next: SearchStage,
    act: SearchActionV,
) -> bool {
    if pending.len() == 0 {
        conclude_v(root, found, next, act)
    } else {
        &&& next matches SearchStage::Walking { root: r, pending: p, found: f }
        &&& r@ == root
        &&& p@ == pending.drop_last()
        &&& founds_v(f@) == found
        &&& act == SearchActionV::List(pending.last())
    }
}

/// One step of the search for the most recently built executable under a
/// directory. Directories are searched depth first, the one found last
/// first, passing over hidden entries and the usual tool directories, and
/// unreadable directories count as empty. The executables found are then
/// offered newest first.
pub open spec fn search_step_v(st: SearchStage, ev: SearchEvent, next: SearchStage, act: SearchActionV) -> bool {
    match st {
        SearchStage::Begin(root) => {
            &&& next matches SearchStage::Walking { root: r, pending: p, found: f }
            &&& r@ == root@
            &&& p@.len() == 0
            &&& f@.len() == 0
            &&& act == SearchActionV::List(0)
        },
        SearchStage::Walking { root, pending, found } => match ev {
            SearchEvent::Listed(Some(es)) => walk_v(
                root@,
                pending@ + subdirs(entries_v(es@)),
                founds_v(found@) + executables(entries_v(es@)),
                next,
                act,
            ),
            SearchEvent::Listed(None) => walk_v(root@, pending@, founds_v(found@), next, act),
            _ => search_over(next, act),
        },
        SearchStage::Choosing => match ev {
            SearchEvent::Picked(p) => next is Running && act == SearchActionV::Run(p@),
            _ => search_over(next, act),
        },
        SearchStage::Running => search_over(next, act),
        SearchStage::Over => search_over(next, act),
    }
}

fn conclude(root: String, found: Vec<Found>) -> (r: (SearchStage, SearchAction))
    ensures
        conclude_v(root@, founds_v(found@), r.0, r.1@),
{
    if found.len() == 0 {
        let mut m = "No executables found in ".to_owned();
        m.append(root.as_str());
        return (SearchStage::Over, SearchAction::Warn(m));
    }
    let ordered = order_newest_first(found);
    let options = path_texts(&ordered);
    match select_option("Select executable to run", options) {
        Selection::Nothing => (SearchStage::Over, SearchAction::Finish),
        Selection::Only(p) => (SearchStage::Running, SearchAction::Run(p)),
        Selection::Ask { prompt, options } => (
            SearchStage::Choosing,
            SearchAction::Ask { prompt, options },
        ),
    }
}

fn walk(root: String, mut pending: Vec<usize>, found: Vec<Found>) -> (r: (SearchStage, SearchAction))
    ensures
        walk_v(root@, pending@, founds_v(found@), r.0, r.1@),
{
    let ghost p0 = pending@;
    match pending.pop() {
        None => conclude(root, found),
        Some(d) => {
            proof {
                assert(pending@ == p0.drop_last());
            }
            (SearchStage::Walking { root, pending, found }, SearchAction::List(d))
        },
    }
}

/// The next action of the search, given where it stands and what the last
/// action gave.
pub fn search_step(st: SearchStage, ev: &SearchEvent) -> (r: (SearchStage, SearchAction))
    ensures
        search_step_v(st, *ev, r.0, r.1@),
{
    match st {
        SearchStage::Begin(root) => {
            (
                SearchStage::Walking { root, pending: Vec::new(), found: Vec::new() },
                SearchAction::List(0),
            )
        },
        SearchStage::Walking { root, pending, found } => match ev {
            SearchEvent::Listed(listed) => {
                let mut pending = pending;
                let mut found = found;
                match listed {
                    Some(es) => absorb(es, &mut pending, &mut found),
                    None => {},
                }
                walk(root, pending, found)
            },
            _ => (SearchStage::Over, SearchAction::Finish),
        },
        SearchStage::Choosing => match ev {
            SearchEvent::Picked(p) => (SearchStage::Running, SearchAction::Run(p.clone())),
            _ => (SearchStage::Over, SearchAction::Finish),
        },
        SearchStage::Running => (SearchStage::Over, SearchAction::Finish),
        SearchStage::Over => (SearchStage::Over, SearchAction::Finish),
    }
}

/// The executables are offered newest first: each comes before every one
/// modified earlier, and nothing is lost or added.
pub proof fn law_newest_first(fs: Seq<FoundV>)
    ensures
        newest_first(fs).len() == fs.len(),
        newest_first(fs).to_multiset() =~= fs.to_multiset(),
        forall|a: int, b: int|
            0 <= a < b < fs.len() ==> (#[trigger] newest_first(fs)[a]).modified >= (
            #[trigger] newest_first(fs)[b]).modified,
    decreases fs.len(),
{
    broadcast use vstd::seq_lib::group_to_multiset_ensures;
    broadcast use vstd::multiset::group_multiset_axioms;

    if fs.len() == 0 {
        assert(newest_first(fs) =~= fs);
    } else {
        let i = newest_index(fs);
        lemma_newest_index(fs);
        let rest = fs.remove(i);
        law_newest_first(rest);
        let nr = newest_first(rest);
        let out = newest_first(fs);
        assert(out == seq![fs[i]] + nr);
        fs.to_multiset_ensures();
        vstd::seq_lib::lemma_multiset_commutative(seq![fs[i]], nr);
        assert(seq![fs[i]] == Seq::<FoundV>::empty().push(fs[i]));
        Seq::<FoundV>::empty().to_multiset_ensures();
        assert(Seq::<FoundV>::empty().to_multiset() =~= vstd::multiset::Multiset::empty());
        assert(out.to_multiset() =~= fs.to_multiset());
        assert forall|a: int, b: int| 0 <= a < b < fs.len() implies (
        #[trigger] out[a]).modified >= (#[trigger] out[b]).modified by {
            if a == 0 {
                let x = nr[b - 1];
                assert(out[b] == x);
                assert(nr.contains(x));
                nr.to_multiset_ensures();
                rest.to_multiset_ensures();
                assert(nr.to_multiset().count(x) > 0);
                assert(rest.to_multiset().count(x) > 0);
                assert(rest.contains(x));
                let k = choose|k: int| 0 <= k < rest.len() && rest[k] == x;
                if k < i {
                    assert(rest[k] == fs[k]);
                } else {
                    assert(rest[k] == fs[k + 1]);
                }
            } else {
                assert(out[a] == nr[a - 1]);
                assert(out[b] == nr[b - 1]);
            }
        }
    }
}

} // verus!
