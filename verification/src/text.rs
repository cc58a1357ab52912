use vstd::prelude::*;

verus! {

/// The characters of a string slice, in order.
pub fn chars_of(s: &str) -> (v: Vec<char>)
    ensures
        v@ == s@,
{
    let mut v: Vec<char> = Vec::new();
    for c in it: s.chars()
        invariant
            v@ == it.seq().take(it.index() as int),
            it.seq() == s@,
    {
        v.push(c);
    }
    v
}

/// Unicode `White_Space`: the characters that `str::trim` and
/// `str::split_whitespace` treat as blanks.
pub open spec fn is_space(c: char) -> bool {
    let n = c as u32;
    ||| 9 <= n <= 13
    ||| n == 32
    ||| n == 0x85
    ||| n == 0xa0
    ||| n == 0x1680
    ||| 0x2000 <= n <= 0x200a
    ||| n == 0x2028
    ||| n == 0x2029
    ||| n == 0x202f
    ||| n == 0x205f
    ||| n == 0x3000
}

/// Whether `c` is a Unicode `White_Space` character.
pub fn is_space_char(c: char) -> (r: bool)
    ensures
        r == is_space(c),
{
    let n = c as u32;
    (9 <= n && n <= 13) || n == 32 || n == 0x85 || n == 0xa0 || n == 0x1680 || (0x2000 <= n && n
        <= 0x200a) || n == 0x2028 || n == 0x2029 || n == 0x202f || n == 0x205f || n == 0x3000
}

/// Index of the first `c` in `s`, or `s.len()` when there is none.
pub open spec fn first_index_of(s: Seq<char>, c: char) -> int
    decreases s.len(),
{
    if s.len() == 0 {
        0
    } else if s[0] == c {
        0
    } else {
        1 + first_index_of(s.drop_first(), c)
    }
}

pub proof fn lemma_first_index_of(s: Seq<char>, c: char)
    ensures
        0 <= first_index_of(s, c) <= s.len(),
        forall|j: int| 0 <= j < first_index_of(s, c) ==> s[j] != c,
        first_index_of(s, c) < s.len() ==> s[first_index_of(s, c)] == c,
    decreases s.len(),
{
    if s.len() > 0 && s[0] != c {
        lemma_first_index_of(s.drop_first(), c);
        assert forall|j: int| 0 <= j < first_index_of(s, c) implies s[j] != c by {
            if j > 0 {
                assert(s[j] == s.drop_first()[j - 1]);
            }
        }
    }
}

/// Any index with the defining property of `first_index_of` is that index.
pub proof fn lemma_first_index_unique(s: Seq<char>, c: char, i: int)
    requires
        0 <= i <= s.len(),
        forall|j: int| 0 <= j < i ==> s[j] != c,
        i < s.len() ==> s[i] == c,
    ensures
        first_index_of(s, c) == i,
{
    lemma_first_index_of(s, c);
    let f = first_index_of(s, c);
    if f < i {
        assert(s[f] == c);
    } else if i < f {
        assert(s[i] == c);
    }
}

/// The first `c` at or after `start`, or `s.len()`.
pub fn find_char_from(s: &Vec<char>, start: usize, c: char) -> (r: usize)
    requires
        start <= s.len(),
    ensures
        start <= r <= s.len(),
        forall|j: int| start <= j < r ==> s@[j] != c,
        r < s.len() ==> s@[r as int] == c,
        r - start == first_index_of(s@.skip(start as int), c),
{
    let mut i = start;
    while i < s.len() && s[i] != c
        invariant
            start <= i <= s.len(),
            forall|j: int| start <= j < i ==> s@[j] != c,
        decreases s.len() - i,
    {
        i = i + 1;
    }
    proof {
        let t = s@.skip(start as int);
        lemma_first_index_unique(t, c, i - start);
    }
    i
}

/// A line with one trailing carriage return removed, as `str::lines` does
/// for lines that end in `\r\n`.
pub open spec fn strip_cr(l: Seq<char>) -> Seq<char> {
    if l.len() > 0 && l.last() == '\r' {
        l.drop_last()
    } else {
        l
    }
}

/// The lines of `s` as `str::lines` yields them: split at `\n`, a `\r`
/// before a `\n` dropped, and no empty line after a final line ending.
pub open spec fn lines(s: Seq<char>) -> Seq<Seq<char>>
    decreases s.len(),
{
    if s.len() == 0 {
        seq![]
    } else {
        let i = first_index_of(s, '\n');
        if 0 <= i < s.len() {
            seq![strip_cr(s.take(i))] + lines(s.skip(i + 1))
        } else {
            seq![s]
        }
    }
}

/// A copy of `s[from..to]`.
pub fn copy_range(s: &Vec<char>, from: usize, to: usize) -> (r: Vec<char>)
    requires
        from <= to <= s.len(),
    ensures
        r@ == s@.subrange(from as int, to as int),
{
    let mut r: Vec<char> = Vec::new();
    let mut i = from;
    while i < to
        invariant
            from <= i <= to <= s.len(),
            r@ == s@.subrange(from as int, i as int),
        decreases to - i,
    {
        r.push(s[i]);
        i = i + 1;
    }
    r
}

/// The views of a sequence of character vectors.
pub open spec fn views(v: Seq<Vec<char>>) -> Seq<Seq<char>> {
    v.map_values(|x: Vec<char>| x@)
}

/// The lines of `s`, split as `str::lines` splits them.
pub fn lines_of(s: &Vec<char>) -> (r: Vec<Vec<char>>)
    ensures
        views(r@) == lines(s@),
{
    let mut out: Vec<Vec<char>> = Vec::new();
    let mut p: usize = 0;
    assert(s@.skip(0) == s@);
    while p < s.len()
        invariant
            p <= s.len(),
            views(out@) + lines(s@.skip(p as int)) == lines(s@),
        decreases s.len() - p,
    {
        let j = find_char_from(s, p, '\n');
        let ghost t = s@.skip(p as int);
        proof {
            lemma_first_index_of(t, '\n');
        }
        if j < s.len() {
            let mut end = j;
            if end > p && s[end - 1] == '\r' {
                end = end - 1;
            }
            let line = copy_range(s, p, end);
            proof {
                assert(t.take(j - p) == s@.subrange(p as int, j as int));
                assert(t.skip(j - p + 1) == s@.skip(j + 1));
                assert(line@ == strip_cr(t.take(j - p)));
                assert(lines(t) == seq![line@] + lines(s@.skip(j + 1)));
                assert(views(out@.push(line)) == views(out@).push(line@));
            }
            out.push(line);
            p = j + 1;
        } else {
            let line = copy_range(s, p, s.len());
            proof {
                assert(line@ == t);
                assert(lines(t) == seq![line@]);
                assert(views(out@.push(line)) == views(out@).push(line@));
                assert(s@.skip(s.len() as int).len() == 0);
            }
            out.push(line);
            p = s.len();
        }
    }
    proof {
        assert(s@.skip(p as int).len() == 0);
        assert(views(out@) + lines(s@.skip(p as int)) == views(out@));
    }
    out
}

/// `s` without its leading blanks.
pub open spec fn trim_start(s: Seq<char>) -> Seq<char>
    decreases s.len(),
{
    if s.len() > 0 && is_space(s[0]) {
        trim_start(s.drop_first())
    } else {
        s
    }
}

/// `s` without its trailing blanks.
pub open spec fn trim_end(s: Seq<char>) -> Seq<char>
    decreases s.len(),
{
    if s.len() > 0 && is_space(s.last()) {
        trim_end(s.drop_last())
    } else {
        s
    }
}

/// `s` without leading and trailing blanks, as `str::trim` returns it.
pub open spec fn trim(s: Seq<char>) -> Seq<char> {
    trim_end(trim_start(s))
}

/// A copy of `s` without leading and trailing blanks.
pub fn trimmed(s: &Vec<char>) -> (r: Vec<char>)
    ensures
        r@ == trim(s@),
{
    let mut a: usize = 0;
    assert(s@.subrange(0, s@.len() as int) == s@);
    while a < s.len() && is_space_char(s[a])
        invariant
            a <= s.len(),
            trim_start(s@) == trim_start(s@.subrange(a as int, s@.len() as int)),
        decreases s.len() - a,
    {
        assert(s@.subrange(a as int, s@.len() as int).drop_first() == s@.subrange(
            a + 1,
            s@.len() as int,
        ));
        a = a + 1;
    }
    let ghost u = s@.subrange(a as int, s@.len() as int);
    assert(trim_start(u) == u);
    let mut b: usize = s.len();
    while b > a && is_space_char(s[b - 1])
        invariant
            a <= b <= s.len(),
            u == s@.subrange(a as int, s@.len() as int),
            trim_end(u) == trim_end(s@.subrange(a as int, b as int)),
        decreases b,
    {
        assert(s@.subrange(a as int, b as int).drop_last() == s@.subrange(a as int, b - 1));
        b = b - 1;
    }
    assert(trim_end(s@.subrange(a as int, b as int)) == s@.subrange(a as int, b as int));
    copy_range(s, a, b)
}

/// Whether `p` occurs in `s` at index `i`.
pub open spec fn match_at(s: Seq<char>, p: Seq<char>, i: int) -> bool {
    0 <= i && i + p.len() <= s.len() && s.subrange(i, i + p.len()) == p
}

/// Whether `p` occurs somewhere in `s`, as `str::contains` answers.
pub open spec fn contains_seq(s: Seq<char>, p: Seq<char>) -> bool {
    exists|i: int| match_at(s, p, i)
}

/// The first index at or after `start` where `p` occurs in `s`, or
/// `s.len()` when it occurs nowhere there.
pub open spec fn first_match_from(s: Seq<char>, p: Seq<char>, start: int) -> int
    decreases s.len() - start,
{
    if start < 0 || start + p.len() > s.len() {
        s.len() as int
    } else if p.len() == 0 || match_at(s, p, start) {
        start
    } else {
        first_match_from(s, p, start + 1)
    }
}

pub proof fn lemma_first_match_from(s: Seq<char>, p: Seq<char>, start: int)
    requires
        0 <= start,
    ensures
        start <= first_match_from(s, p, start) <= s.len() || (start > s.len()
            && first_match_from(s, p, start) == s.len()),
        forall|j: int| start <= j < first_match_from(s, p, start) ==> !match_at(s, p, j),
        first_match_from(s, p, start) + p.len() <= s.len() ==> match_at(
            s,
            p,
            first_match_from(s, p, start),
        ),
        first_match_from(s, p, start) + p.len() > s.len() ==> forall|j: int|
            start <= j ==> !match_at(s, p, j),
    decreases s.len() - start,
{
    if start + p.len() > s.len() {
        assert(s.subrange(s.len() as int, s.len() as int) == p || p.len() > 0);
    } else if p.len() == 0 {
        assert(s.subrange(start, start) == p);
    } else if match_at(s, p, start) {
    } else {
        lemma_first_match_from(s, p, start + 1);
    }
}

/// Whether `p` occurs in `s` at index `i`.
pub fn matches_at(s: &Vec<char>, p: &Vec<char>, i: usize) -> (r: bool)
    ensures
        r == match_at(s@, p@, i as int),
{
    if i > s.len() || p.len() > s.len() - i {
        return false;
    }
    let mut k: usize = 0;
    while k < p.len()
        invariant
            k <= p.len(),
            i + p.len() <= s.len(),
            forall|j: int| 0 <= j < k ==> s@[i + j] == p@[j],
        decreases p.len() - k,
    {
        if s[i + k] != p[k] {
            assert(s@.subrange(i as int, i + p.len())[k as int] != p@[k as int]);
            return false;
        }
        k = k + 1;
    }
    assert(s@.subrange(i as int, i + p.len()) == p@);
    true
}

/// The first index at or after `start` where `p` occurs in `s`, or
/// `s.len()` when there is none.
pub fn find_seq_from(s: &Vec<char>, p: &Vec<char>, start: usize) -> (r: usize)
    requires
        start <= s.len(),
    ensures
        r == first_match_from(s@, p@, start as int),
{
    let mut i = start;
    if p.len() == 0 {
        return start;
    }
    while i < s.len() && p.len() <= s.len() - i && !matches_at(s, p, i)
        invariant
            start <= i <= s.len(),
            p.len() > 0,
            first_match_from(s@, p@, start as int) == first_match_from(s@, p@, i as int),
        decreases s.len() - i,
    {
        i = i + 1;
    }
    if i < s.len() && p.len() <= s.len() - i {
        i
    } else {
        s.len()
    }
}

/// Whether `p` occurs somewhere in `s`.
pub fn contains_chars(s: &Vec<char>, p: &Vec<char>) -> (r: bool)
    ensures
        r == contains_seq(s@, p@),
{
    let i = find_seq_from(s, p, 0);
    proof {
        lemma_first_match_from(s@, p@, 0);
        if p@.len() == 0 {
            assert(match_at(s@, p@, 0));
        }
    }
    p.len() <= s.len() && i <= s.len() - p.len()
}

/// Whether `s` begins with `p`.
pub fn starts_with_chars(s: &Vec<char>, p: &Vec<char>) -> (r: bool)
    ensures
        r == p@.is_prefix_of(s@),
{
    let r = matches_at(s, p, 0);
    proof {
        if r {
            assert(s@.subrange(0, p@.len() as int) == p@);
        } else if p@.is_prefix_of(s@) {
            assert(s@.subrange(0, p@.len() as int) == p@);
        }
    }
    r
}

/// Whether `c` occurs in `s`.
pub fn contains_char(s: &Vec<char>, c: char) -> (r: bool)
    ensures
        r == s@.contains(c),
{
    let i = find_char_from(s, 0, c);
    proof {
        assert(s@.skip(0) == s@);
        if s@.contains(c) {
            let k = choose|k: int| 0 <= k < s@.len() && s@[k] == c;
            assert(k >= i);
        }
    }
    i < s.len()
}

/// Length of the run of non-blank characters at the start of `s`.
pub open spec fn word_end(s: Seq<char>) -> int
    decreases s.len(),
{
    if s.len() == 0 || is_space(s[0]) {
        0
    } else {
        1 + word_end(s.drop_first())
    }
}

pub proof fn lemma_word_end(s: Seq<char>)
    ensures
        0 <= word_end(s) <= s.len(),
        forall|j: int| 0 <= j < word_end(s) ==> !is_space(s[j]),
        word_end(s) < s.len() ==> is_space(s[word_end(s)]),
    decreases s.len(),
{
    if s.len() > 0 && !is_space(s[0]) {
        lemma_word_end(s.drop_first());
        assert forall|j: int| 0 <= j < word_end(s) implies !is_space(s[j]) by {
            if j > 0 {
                assert(s[j] == s.drop_first()[j - 1]);
            }
        }
    }
}

/// The blank-separated words of `s`, as `str::split_whitespace` yields them.
pub open spec fn words(s: Seq<char>) -> Seq<Seq<char>>
    decreases s.len(),
{
    if s.len() == 0 {
        seq![]
    } else if is_space(s[0]) {
        words(s.drop_first())
    } else {
        let k = word_end(s);
        if 0 < k <= s.len() {
            seq![s.take(k)] + words(s.skip(k))
        } else {
            seq![]
        }
    }
}

/// The blank-separated words of `s`.
pub fn words_of(s: &Vec<char>) -> (r: Vec<Vec<char>>)
    ensures
        views(r@) == words(s@),
{
    let mut out: Vec<Vec<char>> = Vec::new();
    let mut p: usize = 0;
    assert(s@.skip(0) == s@);
    while p < s.len()
        invariant
            p <= s.len(),
            views(out@) + words(s@.skip(p as int)) == words(s@),
        decreases s.len() - p,
    {
        let ghost t = s@.skip(p as int);
        if is_space_char(s[p]) {
            assert(t.drop_first() == s@.skip(p + 1));
            p = p + 1;
        } else {
            let mut q = p;
            while q < s.len() && !is_space_char(s[q])
                invariant
                    p <= q <= s.len(),
                    forall|j: int| p <= j < q ==> !is_space(s@[j]),
                decreases s.len() - q,
            {
                q = q + 1;
            }
            proof {
                lemma_word_end(t);
                let k = word_end(t);
                if k < q - p {
                    assert(is_space(t[k]));
                    assert(t[k] == s@[p + k]);
                } else if k > q - p {
                    assert(t[q - p] == s@[q as int]);
                }
                assert(k == q - p);
            }
            let w = copy_range(s, p, q);
            proof {
                assert(t.take(q - p) == w@);
                assert(t.skip(q - p) == s@.skip(q as int));
                assert(views(out@.push(w)) == views(out@).push(w@));
            }
            out.push(w);
            p = q;
        }
    }
    proof {
        assert(s@.skip(p as int).len() == 0);
        assert(views(out@) + words(s@.skip(p as int)) == views(out@));
    }
    out
}

/// Appends one character to a string (`String::push`).
#[verifier::external_body]
fn push_char(s: &mut String, c: char)
    ensures
        final(s)@ == old(s)@.push(c),
{
    s.push(c);
}

/// A string holding the characters of `v`.
pub fn string_of(v: &Vec<char>) -> (r: String)
    ensures
        r@ == v@,
{
    let mut r = String::new();
    let mut i: usize = 0;
    while i < v.len()
        invariant
            i <= v.len(),
            r@ == v@.take(i as int),
        decreases v.len() - i,
    {
        push_char(&mut r, v[i]);
        assert(v@.take(i + 1) == v@.take(i as int).push(v@[i as int]));
        i = i + 1;
    }
    assert(v@.take(v.len() as int) == v@);
    r
}

/// Strings holding the characters of each of `v`.
pub fn strings_of(v: &Vec<Vec<char>>) -> (r: Vec<String>)
    ensures
        r@.map_values(|x: String| x@) == views(v@),
{
    let mut r: Vec<String> = Vec::new();
    let mut i: usize = 0;
    while i < v.len()
        invariant
            i <= v.len(),
            r@.map_values(|x: String| x@) == views(v@).take(i as int),
        decreases v.len() - i,
    {
        let s = string_of(&v[i]);
        proof {
            assert(r@.push(s).map_values(|x: String| x@) == r@.map_values(|x: String| x@).push(
                s@,
            ));
            assert(views(v@).take(i + 1) == views(v@).take(i as int).push(v@[i as int]@));
        }
        r.push(s);
        i = i + 1;
    }
    assert(views(v@).take(v.len() as int) == views(v@));
    r
}

/// Index of the last `c` in `s`, or -1 when there is none.
pub open spec fn last_index_of(s: Seq<char>, c: char) -> int
    decreases s.len(),
{
    if s.len() == 0 {
        -1
    } else if s.last() == c {
        s.len() - 1
    } else {
        last_index_of(s.drop_last(), c)
    }
}

pub proof fn lemma_last_index_of(s: Seq<char>, c: char)
    ensures
        -1 <= last_index_of(s, c) < s.len(),
        last_index_of(s, c) >= 0 ==> s[last_index_of(s, c)] == c,
        forall|j: int| last_index_of(s, c) < j < s.len() ==> s[j] != c,
    decreases s.len(),
{
    if s.len() > 0 && s.last() != c {
        lemma_last_index_of(s.drop_last(), c);
        assert forall|j: int| last_index_of(s, c) < j < s.len() implies s[j] != c by {
            if j < s.len() - 1 {
                assert(s[j] == s.drop_last()[j]);
            }
        }
    }
}

/// The extension of a file name, as `Path::extension` gives it: what
/// follows the last dot, unless the dot is the name's first character or the
/// name is `..`.
pub open spec fn extension(name: Seq<char>) -> Option<Seq<char>> {
    let i = last_index_of(name, '.');
    if name == ".."@ || i <= 0 {
        None
    } else {
        Some(name.skip(i + 1))
    }
}

/// Whether the file name `name` has the extension `ext`.
pub fn has_extension(name: &str, ext: &str) -> (r: bool)
    ensures
        r == (extension(name@) == Some(ext@)),
{
    let n = chars_of(name);
    let e = chars_of(ext);
    proof {
        reveal_strlit("..");
    }
    if n.len() == 2 && n[0] == '.' && n[1] == '.' {
        assert(n@ == ".."@);
        return false;
    }
    assert(n@ != ".."@) by {
        if n@ == ".."@ {
            assert(n@.len() == 2 && n@[0] == '.' && n@[1] == '.');
        }
    }
    let mut i = n.len();
    assert(n@.take(n@.len() as int) == n@);
    while i > 0 && n[i - 1] != '.'
        invariant
            i <= n.len(),
            forall|j: int| i <= j < n.len() ==> n@[j] != '.',
            last_index_of(n@, '.') == last_index_of(n@.take(i as int), '.'),
        decreases i,
    {
        assert(n@.take(i as int).drop_last() == n@.take(i - 1));
        i = i - 1;
    }
    proof {
        lemma_last_index_of(n@.take(i as int), '.');
        if i > 0 {
            assert(n@.take(i as int).last() == '.');
        }
        assert(last_index_of(n@, '.') == i - 1) by {
            if i == 0 {
                assert(n@.take(0).len() == 0);
            }
        }
    }
    if i <= 1 {
        return false;
    }
    let tail = copy_range(&n, i, n.len());
    assert(tail@ == n@.skip(i as int));
    let same = tail.len() == e.len() && matches_at(&tail, &e, 0);
    proof {
        if tail@.len() == e@.len() {
            assert(tail@.subrange(0, e@.len() as int) == tail@);
        }
    }
    same
}

} // verus!
