use vstd::prelude::*;
use crate::text::{
    chars_of, copy_range, find_char_from, first_index_of, lemma_first_index_of, lines, lines_of, trim,
    trimmed, views,
};

verus! {

/// A pattern of a `.gitignore` file.
pub struct Pattern {
    /// The pattern starts with `!`: a match re-includes what an earlier
    /// pattern excluded.
    pub negate: bool,
    /// The pattern ends with `/`: it matches directories only.
    pub dir_only: bool,
    /// The pattern holds a `/` before its end: it is matched against the
    /// path below the project directory from its start; otherwise against
    /// a single name at any depth.
    pub anchored: bool,
    /// The pattern's names, between its slashes.
    pub parts: Vec<Vec<char>>,
}

/// What a pattern is, over text.
pub struct PatternV {
    pub negate: bool,
    pub dir_only: bool,
    pub anchored: bool,
    pub parts: Seq<Seq<char>>,
}

impl View for Pattern {
    type V = PatternV;

    open spec fn view(&self) -> PatternV {
        PatternV {
            negate: self.negate,
            dir_only: self.dir_only,
            anchored: self.anchored,
            parts: views(self.parts@),
        }
    }
}

/// The views of a sequence of patterns.
pub open spec fn patterns_v(ps: Seq<Pattern>) -> Seq<PatternV> {
    ps.map_values(|p: Pattern| p@)
}

/// A text cut at its slashes.
pub open spec fn split_slash(s: Seq<char>) -> Seq<Seq<char>>
    decreases s.len(),
{
    let i = first_index_of(s, '/');
    if i < s.len() {
        proof {
            lemma_first_index_of(s, '/');
        }
        seq![s.take(i)] + split_slash(s.skip(i + 1))
    } else {
        seq![s]
    }
}

/// The pattern a line of a `.gitignore` file gives, if any. Blank lines and
/// comments (`#`) give none. Blanks around the line are dropped; a leading
/// `!` negates; a trailing `/` restricts to directories; a pattern holding
/// another `/` is anchored at the project directory, a leading `/` being
/// dropped. Backslash escapes and bracket classes (`[abc]`) are not read:
/// a backslash or bracket stands for itself.
pub open spec fn pattern_of(line: Seq<char>) -> Option<PatternV> {
    let t = trim(line);
    if t.len() == 0 || t[0] == '#' {
        None
    } else {
        let negate = t[0] == '!';
        let u = if negate {
            t.skip(1)
        } else {
            t
        };
        let dir_only = u.len() > 0 && u.last() == '/';
        let v = if dir_only {
            u.drop_last()
        } else {
            u
        };
        if v.len() == 0 {
            None
        } else {
            let w = if v[0] == '/' {
                v.skip(1)
            } else {
                v
            };
            Some(PatternV { negate, dir_only, anchored: v.contains('/'), parts: split_slash(w) })
        }
    }
}

/// The patterns of the lines, in order.
pub open spec fn patterns_of_lines(ls: Seq<Seq<char>>) -> Seq<PatternV>
    decreases ls.len(),
{
    if ls.len() == 0 {
        seq![]
    } else {
        let rest = patterns_of_lines(ls.drop_last());
        match pattern_of(ls.last()) {
            Some(p) => rest.push(p),
            None => rest,
        }
    }
}

/// The patterns of a `.gitignore` text, in order.
pub open spec fn ignore_patterns_v(text: Seq<char>) -> Seq<PatternV> {
    patterns_of_lines(lines(text))
}

/// Whether a name matches a glob: `*` stands for any run of characters, `?`
/// for any one character, and every other character for itself.
pub open spec fn glob(p: Seq<char>, n: Seq<char>) -> bool
    decreases p.len() + n.len(),
{
    if p.len() == 0 {
        n.len() == 0
    } else if p[0] == '*' {
        glob(p.drop_first(), n) || (n.len() > 0 && glob(p, n.drop_first()))
    } else if n.len() == 0 {
        false
    } else if p[0] == '?' || p[0] == n[0] {
        glob(p.drop_first(), n.drop_first())
    } else {
        false
    }
}

/// Whether a pattern name is `**`.
pub open spec fn is_double_star(s: Seq<char>) -> bool {
    s.len() == 2 && s[0] == '*' && s[1] == '*'
}

/// Whether the names of an anchored pattern match a path's names: each
/// name matches its glob, and `**` stands for any number of names.
pub open spec fn parts_match(ps: Seq<Seq<char>>, cs: Seq<Seq<char>>) -> bool
    decreases ps.len() + cs.len(),
{
    if ps.len() == 0 {
        cs.len() == 0
    } else if is_double_star(ps[0]) {
        parts_match(ps.drop_first(), cs) || (cs.len() > 0 && parts_match(ps, cs.drop_first()))
    } else {
        cs.len() > 0 && glob(ps[0], cs[0]) && parts_match(ps.drop_first(), cs.drop_first())
    }
}

/// Whether a pattern matches the path made of the first `k` names of a
/// changed path (`is_dir` tells whether the whole changed path is a
/// directory; a shorter one always is).
pub open spec fn matches_level(p: PatternV, cs: Seq<Seq<char>>, k: int, is_dir: bool) -> bool {
    &&& (!p.dir_only || k < cs.len() || is_dir)
    &&& if p.anchored {
        parts_match(p.parts, cs.take(k))
    } else {
        p.parts.len() == 1 && glob(p.parts[0], cs[k - 1])
    }
}

/// Whether the path made of the first `k` names is excluded: the last
/// pattern that matches it decides, a negated one re-including it.
pub open spec fn excluded_at(pats: Seq<PatternV>, cs: Seq<Seq<char>>, k: int, is_dir: bool) -> bool
    decreases pats.len(),
{
    if pats.len() == 0 {
        false
    } else if matches_level(pats.last(), cs, k, is_dir) {
        !pats.last().negate
    } else {
        excluded_at(pats.drop_last(), cs, k, is_dir)
    }
}

/// Whether a changed path is ignored: it, or a directory it lies in, is
/// excluded (so, as in git, nothing inside an excluded directory is
/// re-included).
pub open spec fn path_ignored(pats: Seq<PatternV>, cs: Seq<Seq<char>>, is_dir: bool) -> bool {
    exists|k: int| 1 <= k <= cs.len() && #[trigger] excluded_at(pats, cs, k, is_dir)
}

/// A changed path: its names below the project directory, and whether it is
/// a directory.
pub struct Change {
    pub names: Vec<Vec<char>>,
    pub is_dir: bool,
}

/// Whether a change matters: it names no path, or one of its paths is not
/// ignored.
pub open spec fn change_matters_v(changes: Seq<Change>, pats: Seq<PatternV>) -> bool {
    changes.len() == 0 || exists|m: int|
        0 <= m < changes.len() && !path_ignored(
            pats,
            views((#[trigger] changes[m]).names@),
            changes[m].is_dir,
        )
}

/// A text cut at its slashes.
fn split_at_slashes(s: &Vec<char>) -> (r: Vec<Vec<char>>)
    ensures
        views(r@) == split_slash(s@),
{
    let mut r: Vec<Vec<char>> = Vec::new();
    let mut start: usize = 0;
    let mut done = false;
    assert(s@.skip(0) == s@);
    assert(views(r@) + split_slash(s@) == split_slash(s@));
    while !done
        invariant
            start <= s.len(),
            !done ==> views(r@) + split_slash(s@.skip(start as int)) == split_slash(s@),
            done ==> views(r@) == split_slash(s@),
        decreases s.len() - start + (if done {
            0int
        } else {
            1int
        }),
    {
        let k = find_char_from(s, start, '/');
        let ghost t = s@.skip(start as int);
        proof {
            lemma_first_index_of(t, '/');
        }
        if k < s.len() {
            let part = copy_range(s, start, k);
            proof {
                assert(t.take(k - start) == part@);
                assert(t.skip(k - start + 1) == s@.skip(k + 1));
                assert(split_slash(t) == seq![part@] + split_slash(s@.skip(k + 1)));
                assert(views(r@.push(part)) == views(r@).push(part@));
                assert(views(r@).push(part@) + split_slash(s@.skip(k + 1)) == views(r@) + (seq![
                    part@,
                ] + split_slash(s@.skip(k + 1))));
            }
            r.push(part);
            start = k + 1;
        } else {
            let part = copy_range(s, start, s.len());
            proof {
                assert(part@ == t);
                assert(split_slash(t) == seq![t]);
                assert(views(r@.push(part)) == views(r@).push(part@));
            }
            r.push(part);
            done = true;
        }
    }
    r
}

fn pattern_from(line: &Vec<char>) -> (r: Option<Pattern>)
    ensures
        match r {
            Some(p) => pattern_of(line@) == Some(p@),
            None => pattern_of(line@) is None,
        },
{
    let t = trimmed(line);
    if t.len() == 0 || t[0] == '#' {
        return None;
    }
    let negate = t[0] == '!';
    let u = if negate {
        copy_range(&t, 1, t.len())
    } else {
        copy_range(&t, 0, t.len())
    };
    assert(u@ == (if negate {
        t@.skip(1)
    } else {
        t@
    }));
    let dir_only = u.len() > 0 && u[u.len() - 1] == '/';
    let v = if dir_only {
        copy_range(&u, 0, u.len() - 1)
    } else {
        copy_range(&u, 0, u.len())
    };
    assert(v@ == (if dir_only {
        u@.drop_last()
    } else {
        u@
    }));
    if v.len() == 0 {
        return None;
    }
    let k = find_char_from(&v, 0, '/');
    assert(v@.skip(0) == v@);
    let anchored = k < v.len();
    proof {
        if anchored {
            assert(v@.contains('/'));
        } else {
            assert(!v@.contains('/'));
        }
    }
    let w = if v[0] == '/' {
        copy_range(&v, 1, v.len())
    } else {
        copy_range(&v, 0, v.len())
    };
    assert(w@ == (if v@[0] == '/' {
        v@.skip(1)
    } else {
        v@
    }));
    let parts = split_at_slashes(&w);
    Some(Pattern { negate, dir_only, anchored, parts })
}

/// The patterns of a `.gitignore` text, in order.
pub fn ignore_patterns(text: &str) -> (r: Vec<Pattern>)
    ensures
        patterns_v(r@) == ignore_patterns_v(text@),
{
    let cs = chars_of(text);
    let ls = lines_of(&cs);
    let mut r: Vec<Pattern> = Vec::new();
    let mut i: usize = 0;
    while i < ls.len()
        invariant
            i <= ls.len(),
            views(ls@) == lines(cs@),
            cs@ == text@,
            patterns_v(r@) == patterns_of_lines(views(ls@).take(i as int)),
        decreases ls.len() - i,
    {
        let ghost next = views(ls@).take(i + 1);
        assert(next.drop_last() == views(ls@).take(i as int));
        assert(next.last() == ls@[i as int]@);
        match pattern_from(&ls[i]) {
            Some(p) => {
                assert(patterns_v(r@.push(p)) == patterns_v(r@).push(p@));
                r.push(p);
            },
            None => {},
        }
        i = i + 1;
    }
    assert(views(ls@).take(ls.len() as int) == views(ls@));
    r
}

/// Whether the rest of a name, from `j`, matches the rest of a glob, from
/// `i`.
fn glob_from(p: &Vec<char>, i: usize, n: &Vec<char>, j: usize) -> (r: bool)
    requires
        i <= p.len(),
        j <= n.len(),
    ensures
        r == glob(p@.skip(i as int), n@.skip(j as int)),
    decreases p.len() - i + n.len() - j,
{
    let ghost ps = p@.skip(i as int);
    let ghost ns = n@.skip(j as int);
    if i == p.len() {
        return j == n.len();
    }
    assert(ps.drop_first() == p@.skip(i + 1));
    if j < n.len() {
        assert(ns.drop_first() == n@.skip(j + 1));
    }
    if p[i] == '*' {
        if glob_from(p, i + 1, n, j) {
            return true;
        }
        j < n.len() && glob_from(p, i, n, j + 1)
    } else if j == n.len() {
        false
    } else if p[i] == '?' || p[i] == n[j] {
        glob_from(p, i + 1, n, j + 1)
    } else {
        false
    }
}

/// Whether a name matches a glob.
pub fn glob_matches(p: &Vec<char>, n: &Vec<char>) -> (r: bool)
    ensures
        r == glob(p@, n@),
{
    assert(p@.skip(0) == p@);
    assert(n@.skip(0) == n@);
    glob_from(p, 0, n, 0)
}

/// Whether pattern names from `a` match path names from `b` up to `k`.
fn parts_from(ps: &Vec<Vec<char>>, a: usize, cs: &Vec<Vec<char>>, b: usize, k: usize) -> (r: bool)
    requires
        a <= ps.len(),
        b <= k <= cs.len(),
    ensures
        r == parts_match(views(ps@).skip(a as int), views(cs@).take(k as int).skip(b as int)),
    decreases ps.len() - a + k - b,
{
    let ghost pv = views(ps@).skip(a as int);
    let ghost cv = views(cs@).take(k as int).skip(b as int);
    if a == ps.len() {
        return b == k;
    }
    assert(pv.drop_first() == views(ps@).skip(a + 1));
    assert(pv[0] == ps@[a as int]@);
    if b < k {
        assert(cv.drop_first() == views(cs@).take(k as int).skip(b + 1));
        assert(cv[0] == cs@[b as int]@);
    }
    let star = ps[a].len() == 2 && ps[a][0] == '*' && ps[a][1] == '*';
    if star {
        if parts_from(ps, a + 1, cs, b, k) {
            return true;
        }
        b < k && parts_from(ps, a, cs, b + 1, k)
    } else {
        b < k && glob_matches(&ps[a], &cs[b]) && parts_from(ps, a + 1, cs, b + 1, k)
    }
}

/// Whether a pattern matches the path made of the first `k` names.
fn matches_level_exec(p: &Pattern, cs: &Vec<Vec<char>>, k: usize, is_dir: bool) -> (r: bool)
    requires
        1 <= k <= cs.len(),
    ensures
        r == matches_level(p@, views(cs@), k as int, is_dir),
{
    if p.dir_only && !(k < cs.len() || is_dir) {
        return false;
    }
    if p.anchored {
        assert(views(cs@).take(k as int).skip(0) == views(cs@).take(k as int));
        assert(views(p.parts@).skip(0) == views(p.parts@));
        proof {
            assert(views(cs@).take(k as int) == views(cs@).take(k as int));
        }
        parts_from(&p.parts, 0, cs, 0, k)
    } else {
        p.parts.len() == 1 && glob_matches(&p.parts[0], &cs[k - 1])
    }
}

/// Whether the path made of the first `k` names is excluded.
fn excluded_at_exec(pats: &Vec<Pattern>, cs: &Vec<Vec<char>>, k: usize, is_dir: bool) -> (r: bool)
    requires
        1 <= k <= cs.len(),
    ensures
        r == excluded_at(patterns_v(pats@), views(cs@), k as int, is_dir),
{
    let mut j = pats.len();
    assert(patterns_v(pats@).take(j as int) == patterns_v(pats@));
    while j > 0
        invariant
            j <= pats.len(),
            1 <= k <= cs.len(),
            excluded_at(patterns_v(pats@), views(cs@), k as int, is_dir) == excluded_at(
                patterns_v(pats@).take(j as int),
                views(cs@),
                k as int,
                is_dir,
            ),
        decreases j,
    {
        let ghost pre = patterns_v(pats@).take(j as int);
        assert(pre.last() == pats@[j - 1]@);
        assert(pre.drop_last() == patterns_v(pats@).take(j - 1));
        if matches_level_exec(&pats[j - 1], cs, k, is_dir) {
            return !pats[j - 1].negate;
        }
        j = j - 1;
    }
    false
}

/// Whether a changed path is ignored by the patterns.
pub fn path_is_ignored(pats: &Vec<Pattern>, cs: &Vec<Vec<char>>, is_dir: bool) -> (r: bool)
    ensures
        r == path_ignored(patterns_v(pats@), views(cs@), is_dir),
{
    let mut i: usize = 0;
    while i < cs.len()
        invariant
            i <= cs.len(),
            forall|m: int|
                1 <= m <= i ==> !#[trigger] excluded_at(patterns_v(pats@), views(cs@), m, is_dir),
        decreases cs.len() - i,
    {
        if excluded_at_exec(pats, cs, i + 1, is_dir) {
            assert(excluded_at(patterns_v(pats@), views(cs@), i + 1, is_dir));
            return true;
        }
        i = i + 1;
    }
    false
}

/// While watching, whether a change should start a build: it names no path,
/// or one of the paths it names is not ignored by the `.gitignore`
/// patterns.
pub fn change_matters(changes: &Vec<Change>, pats: &Vec<Pattern>) -> (r: bool)
    ensures
        r == change_matters_v(changes@, patterns_v(pats@)),
{
    if changes.len() == 0 {
        return true;
    }
    let mut m: usize = 0;
    while m < changes.len()
        invariant
            m <= changes.len(),
            forall|q: int|
                0 <= q < m ==> path_ignored(
                    patterns_v(pats@),
                    views((#[trigger] changes@[q]).names@),
                    changes@[q].is_dir,
                ),
        decreases changes.len() - m,
    {
        if !path_is_ignored(pats, &changes[m].names, changes[m].is_dir) {
            return true;
        }
        m = m + 1;
    }
    false
}

/// While watching, whether a change starts a build: it matters (see
/// `change_matters`) and more than half a second has passed since the last
/// build started.
pub fn should_rebuild(elapsed_nanos: u128, changes: &Vec<Change>, pats: &Vec<Pattern>) -> (r: bool)
    ensures
        r == (change_matters_v(changes@, patterns_v(pats@)) && elapsed_nanos
            > crate::session::DEBOUNCE_NANOS),
{
    change_matters(changes, pats) && crate::session::rerun_due(elapsed_nanos)
}

} // verus!
