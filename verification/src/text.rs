//! Character-level string helpers shared by the other modules.

use vstd::prelude::*;
use vstd::string::*;

verus! {

broadcast use vstd::string::group_string_axioms;

/// Longest button label, in characters, before it is cut short.
pub const MAX_LABEL_LENGTH: usize = 17;

/// `s` cut to its first `MAX_LABEL_LENGTH` characters followed by `...`,
/// or `s` itself when it is not longer than that.
pub open spec fn truncated_label(s: Seq<char>) -> Seq<char> {
    if s.len() <= MAX_LABEL_LENGTH {
        s
    } else {
        s.subrange(0, MAX_LABEL_LENGTH as int) + seq!['.', '.', '.']
    }
}

/// Shortens a name so that it fits on a button.
pub fn special_truncate(name: &str) -> (res: String)
    ensures
        res@ == truncated_label(name@),
{
    let n = name.unicode_len();
    if n <= MAX_LABEL_LENGTH {
        name.to_owned()
    } else {
        let mut res = name.substring_char(0, MAX_LABEL_LENGTH).to_owned();
        let dots = "...";
        proof {
            reveal_strlit("...");
        }
        res.append(dots);
        res
    }
}

} // verus!

verus! {

/// Trusted, not proved: std's `String::push` appends the character `ch` to
/// the end of the string and changes nothing else, as its documentation
/// states.
pub assume_specification[ String::push ](s: &mut String, ch: char)
    ensures
        final(s)@ == old(s)@.push(ch),
;

/// The characters of `s`, in order.
pub fn chars_of(s: &str) -> (v: Vec<char>)
    ensures
        v@ == s@,
{
    let mut v: Vec<char> = Vec::new();
    for c in it: s.chars()
        invariant
            it.seq() == s@,
            v@ == s@.take(it.index() as int),
    {
        v.push(c);
    }
    v
}

} // verus!

verus! {

/// The decimal digit character for `d < 10`.
pub open spec fn digit_char(d: nat) -> char {
    if d == 0 { '0' }
    else if d == 1 { '1' }
    else if d == 2 { '2' }
    else if d == 3 { '3' }
    else if d == 4 { '4' }
    else if d == 5 { '5' }
    else if d == 6 { '6' }
    else if d == 7 { '7' }
    else if d == 8 { '8' }
    else { '9' }
}

/// The decimal notation of `n`, without sign or leading zeros.
pub open spec fn decimal(n: nat) -> Seq<char>
    decreases n,
{
    if n < 10 {
        seq![digit_char(n)]
    } else {
        decimal(n / 10).push(digit_char(n % 10))
    }
}

fn digit(d: u64) -> (c: char)
    requires
        d < 10,
    ensures
        c == digit_char(d as nat),
{
    if d == 0 { '0' }
    else if d == 1 { '1' }
    else if d == 2 { '2' }
    else if d == 3 { '3' }
    else if d == 4 { '4' }
    else if d == 5 { '5' }
    else if d == 6 { '6' }
    else if d == 7 { '7' }
    else if d == 8 { '8' }
    else { '9' }
}

/// Writes `n` in decimal.
pub fn decimal_string(n: u64) -> (s: String)
    ensures
        s@ == decimal(n as nat),
    decreases n,
{
    if n < 10 {
        let mut s = String::new();
        s.push(digit(n));
        s
    } else {
        let mut s = decimal_string(n / 10);
        s.push(digit(n % 10));
        s
    }
}

/// `pat` occurs in `s` at position `i`.
pub open spec fn occurs_at(s: Seq<char>, pat: Seq<char>, i: int) -> bool {
    0 <= i && i + pat.len() <= s.len() && s.subrange(i, i + pat.len()) == pat
}

/// `pat` occurs somewhere in `s` (the empty pattern occurs in every string).
pub open spec fn contains_seq(s: Seq<char>, pat: Seq<char>) -> bool {
    exists|i: int| #[trigger] occurs_at(s, pat, i)
}

/// Whether `pat` occurs in `s`.
pub fn str_contains(s: &str, pat: &str) -> (res: bool)
    ensures
        res == contains_seq(s@, pat@),
{
    let sv = chars_of(s);
    let pv = chars_of(pat);
    if pv.len() > sv.len() {
        assert forall|i: int| !occurs_at(s@, pat@, i) by {}
        return false;
    }
    if pv.len() == 0 {
        assert(s@.subrange(0, 0) =~= pat@);
        assert(occurs_at(s@, pat@, 0));
        return true;
    }
    let n = sv.len();
    let last = n - pv.len();
    let mut i: usize = 0;
    while i <= last
        invariant
            sv@ == s@,
            pv@ == pat@,
            n == sv@.len(),
            pv@.len() >= 1,
            last == sv@.len() - pv@.len(),
            i <= last + 1,
            forall|k: int| 0 <= k < i ==> !occurs_at(s@, pat@, k),
        decreases last + 1 - i,
    {
        let mut j: usize = 0;
        let mut same = true;
        while j < pv.len()
            invariant
                sv@ == s@,
                pv@ == pat@,
                i <= last,
                n == sv@.len(),
                last == sv@.len() - pv@.len(),
                j <= pv@.len(),
                same == (forall|k: int| 0 <= k < j ==> sv@[i + k] == pv@[k]),
            decreases pv@.len() - j,
        {
            if sv[i + j] != pv[j] {
                same = false;
            }
            j = j + 1;
        }
        if same {
            assert(s@.subrange(i as int, i + pat@.len()) =~= pat@);
            assert(occurs_at(s@, pat@, i as int));
            return true;
        }
        assert(!occurs_at(s@, pat@, i as int)) by {
            if occurs_at(s@, pat@, i as int) {
                assert forall|k: int| 0 <= k < pv@.len() implies sv@[i + k] == pv@[k] by {
                    assert(s@.subrange(i as int, i + pat@.len())[k] == pat@[k]);
                }
            }
        }
        i = i + 1;
    }
    assert forall|k: int| !occurs_at(s@, pat@, k) by {
        if 0 <= k && k + pat@.len() <= s@.len() {
            assert(k < i);
        }
    }
    false
}

/// Whether `s` begins with `pat`.
pub fn str_starts_with(s: &str, pat: &str) -> (res: bool)
    ensures
        res == pat@.is_prefix_of(s@),
{
    let sv = chars_of(s);
    let pv = chars_of(pat);
    if pv.len() > sv.len() {
        return false;
    }
    let mut j: usize = 0;
    while j < pv.len()
        invariant
            sv@ == s@,
            pv@ == pat@,
            pv@.len() <= sv@.len(),
            j <= pv@.len(),
            forall|k: int| 0 <= k < j ==> sv@[k] == pv@[k],
        decreases pv@.len() - j,
    {
        if sv[j] != pv[j] {
            return false;
        }
        j = j + 1;
    }
    true
}

} // verus!

verus! {

/// The lines `v` joined with a newline between each two of them.
pub open spec fn join_lines(v: Seq<Seq<char>>) -> Seq<char>
    decreases v.len(),
{
    if v.len() == 0 {
        Seq::empty()
    } else if v.len() == 1 {
        v[0]
    } else {
        join_lines(v.drop_last()) + seq!['\n'] + v.last()
    }
}

/// The pieces of `s` between newlines, as `str::split('\n')` yields them:
/// one more piece than `s` has newlines, empty pieces included.
pub open spec fn split_lines(s: Seq<char>) -> Seq<Seq<char>>
    decreases s.len(),
{
    if s.len() == 0 {
        seq![Seq::empty()]
    } else {
        let rest = split_lines(s.drop_last());
        if s.last() == '\n' {
            rest.push(Seq::empty())
        } else {
            rest.update(rest.len() - 1, rest.last().push(s.last()))
        }
    }
}

/// `s` holds no newline.
pub open spec fn no_newline(s: Seq<char>) -> bool {
    forall|i: int| 0 <= i < s.len() ==> s[i] != '\n'
}

/// The views of a sequence of strings.
pub open spec fn views(v: Seq<String>) -> Seq<Seq<char>> {
    v.map_values(|x: String| x@)
}

/// Splitting always gives at least one piece, and no piece holds a newline.
pub proof fn lemma_split_lines_shape(s: Seq<char>)
    ensures
        split_lines(s).len() >= 1,
        forall|i: int| 0 <= i < split_lines(s).len() ==> no_newline(#[trigger] split_lines(s)[i]),
    decreases s.len(),
{
    if s.len() > 0 {
        lemma_split_lines_shape(s.drop_last());
        let rest = split_lines(s.drop_last());
        if s.last() != '\n' {
            assert forall|i: int| 0 <= i < split_lines(s).len() implies no_newline(
                #[trigger] split_lines(s)[i],
            ) by {
                if i == rest.len() - 1 {
                    assert(no_newline(rest[i]));
                }
            }
        }
    }
}

/// A string without newline is a single piece.
pub proof fn lemma_split_single(t: Seq<char>)
    requires
        no_newline(t),
    ensures
        split_lines(t) == seq![t],
    decreases t.len(),
{
    if t.len() > 0 {
        lemma_split_single(t.drop_last());
        assert(t.drop_last().push(t.last()) =~= t);
        assert(split_lines(t) =~= seq![t]);
    } else {
        assert(t =~= Seq::<char>::empty());
    }
}

/// Splitting `a`, a newline and a newline-free `t` gives the pieces of `a`
/// followed by `t`.
pub proof fn lemma_split_append(a: Seq<char>, t: Seq<char>)
    requires
        no_newline(t),
    ensures
        split_lines(a + seq!['\n'] + t) == split_lines(a).push(t),
    decreases t.len(),
{
    let s = a + seq!['\n'] + t;
    if t.len() == 0 {
        assert(s.drop_last() =~= a);
        assert(s.last() == '\n');
        assert(t =~= Seq::<char>::empty());
    } else {
        lemma_split_append(a, t.drop_last());
        assert(s.drop_last() =~= a + seq!['\n'] + t.drop_last());
        assert(s.last() == t.last());
        assert(t.drop_last().push(t.last()) =~= t);
        assert(split_lines(s) =~= split_lines(a).push(t));
    }
}

/// Splitting what was joined gives back the lines, provided there is at
/// least one line and no line holds a newline.
pub proof fn lemma_split_join(v: Seq<Seq<char>>)
    requires
        v.len() >= 1,
        forall|i: int| 0 <= i < v.len() ==> no_newline(#[trigger] v[i]),
    ensures
        split_lines(join_lines(v)) == v,
    decreases v.len(),
{
    if v.len() == 1 {
        lemma_split_single(v[0]);
        assert(seq![v[0]] =~= v);
    } else {
        let w = v.drop_last();
        assert forall|i: int| 0 <= i < w.len() implies no_newline(#[trigger] w[i]) by {
            assert(w[i] == v[i]);
        }
        lemma_split_join(w);
        lemma_split_append(join_lines(w), v.last());
        assert(w.push(v.last()) =~= v);
    }
}

/// Joining the pieces of a split gives back the string.
pub proof fn lemma_join_split(s: Seq<char>)
    ensures
        join_lines(split_lines(s)) == s,
    decreases s.len(),
{
    if s.len() > 0 {
        let p = s.drop_last();
        lemma_join_split(p);
        lemma_split_lines_shape(p);
        let rest = split_lines(p);
        if s.last() == '\n' {
            let r2 = rest.push(Seq::empty());
            assert(r2.drop_last() =~= rest);
            assert(join_lines(r2) =~= p + seq!['\n']);
            assert(p + seq!['\n'] =~= s);
        } else {
            let r2 = rest.update(rest.len() - 1, rest.last().push(s.last()));
            if rest.len() == 1 {
                assert(join_lines(r2) == rest.last().push(s.last()));
                assert(join_lines(rest) == rest[0]);
                assert(p.push(s.last()) =~= s);
            } else {
                assert(r2.drop_last() =~= rest.drop_last());
                assert(join_lines(r2) =~= join_lines(rest).push(s.last()));
                assert(p.push(s.last()) =~= s);
            }
        }
    }
}

/// Joins the strings with a newline between each two of them.
pub fn join_with_newlines(v: &Vec<String>) -> (res: String)
    ensures
        res@ == join_lines(views(v@)),
{
    let mut res = String::new();
    let mut i: usize = 0;
    while i < v.len()
        invariant
            i <= v@.len(),
            res@ == join_lines(views(v@).take(i as int)),
        decreases v@.len() - i,
    {
        let ghost before = views(v@).take(i as int);
        if i > 0 {
            res.push('\n');
        }
        res.append(v[i].as_str());
        proof {
            let after = views(v@).take(i + 1);
            assert(after.drop_last() =~= before);
            if i == 0 {
                assert(res@ =~= after[0]);
            } else {
                assert(res@ =~= join_lines(before) + seq!['\n'] + after.last());
            }
        }
        i = i + 1;
    }
    assert(views(v@).take(v@.len() as int) =~= views(v@));
    res
}

/// Splits `s` at every newline, as `str::split('\n')` does.
pub fn split_at_newlines(s: &str) -> (res: Vec<String>)
    ensures
        views(res@) == split_lines(s@),
{
    let chars = chars_of(s);
    let mut done: Vec<String> = Vec::new();
    let mut cur = String::new();
    let mut i: usize = 0;
    while i < chars.len()
        invariant
            chars@ == s@,
            i <= chars@.len(),
            views(done@).push(cur@) == split_lines(s@.take(i as int)),
        decreases chars@.len() - i,
    {
        let ghost pre = s@.take(i as int);
        let c = chars[i];
        proof {
            assert(s@.take(i + 1).drop_last() =~= pre);
            assert(s@.take(i + 1).last() == c);
        }
        if c == '\n' {
            let piece = cur;
            done.push(piece);
            cur = String::new();
            assert(views(done@).push(cur@) =~= split_lines(pre).push(Seq::empty()));
        } else {
            let ghost r = split_lines(pre);
            cur.push(c);
            assert(views(done@).push(cur@) =~= r.update(r.len() - 1, r.last().push(c)));
        }
        i = i + 1;
    }
    assert(s@.take(chars@.len() as int) =~= s@);
    done.push(cur);
    done
}

} // verus!
