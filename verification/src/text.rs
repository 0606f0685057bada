//! Character-level string operations with exact specifications.
use vstd::prelude::*;

verus! {

/// Appends one character to a string (`String::push`).
#[verifier::external_body]
pub(crate) fn push_char(s: &mut String, c: char)
    ensures
        final(s)@ == old(s)@.push(c),
{
    s.push(c)
}

/// The characters of `s`, in order.
pub fn chars_of(s: &str) -> (v: Vec<char>)
    ensures
        v@ == s@,
{
    let n = s.unicode_len();
    let mut v: Vec<char> = Vec::new();
    let mut i: usize = 0;
    while i < n
        invariant
            n == s@.len(),
            i <= n,
            v@ == s@.subrange(0, i as int),
        decreases n - i,
    {
        let c = s.get_char(i);
        v.push(c);
        i = i + 1;
        assert(v@ =~= s@.subrange(0, i as int));
    }
    assert(v@ =~= s@);
    v
}

/// A string made of the given characters.
pub fn string_of(v: &Vec<char>) -> (s: String)
    ensures
        s@ == v@,
{
    let mut s = String::new();
    let mut i: usize = 0;
    while i < v.len()
        invariant
            i <= v.len(),
            s@ == v@.subrange(0, i as int),
        decreases v.len() - i,
    {
        push_char(&mut s, v[i]);
        i = i + 1;
        assert(s@ =~= v@.subrange(0, i as int));
    }
    assert(s@ =~= v@);
    s
}

/// Whether `p` occurs in `v` at position `i`.
pub open spec fn occurs_at(v: Seq<char>, i: int, p: Seq<char>) -> bool {
    0 <= i && i + p.len() <= v.len() && v.subrange(i, i + p.len()) == p
}

/// `to` before, between and after the characters of `s` (what
/// `str::replace` gives for an empty pattern).
pub open spec fn interleaved(s: Seq<char>, to: Seq<char>) -> Seq<char>
    decreases s.len(),
{
    if s.len() == 0 {
        to
    } else {
        to + seq![s[0]] + interleaved(s.subrange(1, s.len() as int), to)
    }
}

/// `s` with every occurrence of `from` replaced by `to`, the occurrences
/// taken from left to right without overlap (what `str::replace` does); an
/// empty `from` occurs before, between and after the characters.
pub open spec fn replaced(s: Seq<char>, from: Seq<char>, to: Seq<char>) -> Seq<char>
    decreases s.len(),
{
    if from.len() == 0 {
        interleaved(s, to)
    } else if s.len() == 0 {
        s
    } else if occurs_at(s, 0, from) {
        to + replaced(s.subrange(from.len() as int, s.len() as int), from, to)
    } else {
        seq![s[0]] + replaced(s.subrange(1, s.len() as int), from, to)
    }
}

/// Text in which no match of `from` starts passes through a replacement
/// unchanged, and the replacement goes on after it.
pub proof fn lemma_replaced_passes_plain(x: Seq<char>, tail: Seq<char>, from: Seq<char>, to: Seq<char>)
    requires
        from.len() > 0,
        forall|i: int| 0 <= i < x.len() ==> !occurs_at(x + tail, i, from),
    ensures
        replaced(x + tail, from, to) == x + replaced(tail, from, to),
    decreases x.len(),
{
    let s = x + tail;
    if x.len() == 0 {
        assert(s =~= tail);
        assert(x + replaced(tail, from, to) =~= replaced(tail, from, to));
    } else {
        assert(!occurs_at(s, 0, from));
        let x1 = x.subrange(1, x.len() as int);
        assert(s.subrange(1, s.len() as int) =~= x1 + tail);
        assert forall|i: int| 0 <= i < x1.len() implies !occurs_at(x1 + tail, i, from) by {
            assert(!occurs_at(s, i + 1, from));
            if occurs_at(x1 + tail, i, from) {
                assert((x1 + tail).subrange(i, i + from.len()) =~= s.subrange(i + 1, i + 1 + from.len()));
            }
        }
        lemma_replaced_passes_plain(x1, tail, from, to);
        assert(seq![s[0]] + (x1 + replaced(tail, from, to)) =~= x + replaced(tail, from, to));
    }
}

/// Every occurrence is replaced, not only the first: an occurrence of
/// `from` on each side of a text in which no further occurrence starts
/// gives `to` on each side of that text.
pub proof fn lemma_replaced_every_occurrence(x: Seq<char>, from: Seq<char>, to: Seq<char>)
    requires
        from.len() > 0,
        forall|i: int| 0 <= i < x.len() ==> !occurs_at(x + from, i, from),
    ensures
        replaced(from + x + from, from, to) == to + x + to,
{
    let s = from + x + from;
    assert(s.subrange(0, from.len() as int) =~= from);
    assert(occurs_at(s, 0, from));
    assert(s.subrange(from.len() as int, s.len() as int) =~= x + from);
    lemma_replaced_passes_plain(x, from, from, to);
    assert(from.subrange(0, from.len() as int) =~= from);
    assert(occurs_at(from, 0, from));
    assert(from.subrange(from.len() as int, from.len() as int) =~= Seq::<char>::empty());
    assert(replaced(Seq::<char>::empty(), from, to) == Seq::<char>::empty());
    assert(replaced(from, from, to) =~= to);
    assert(to + (x + to) =~= to + x + to);
}

fn matches_at(v: &Vec<char>, i: usize, p: &Vec<char>) -> (b: bool)
    requires
        i <= v.len(),
    ensures
        b == occurs_at(v@, i as int, p@),
{
    if p.len() > v.len() - i {
        return false;
    }
    let mut j: usize = 0;
    while j < p.len()
        invariant
            i + p.len() <= v.len(),
            j <= p.len(),
            forall|k: int| 0 <= k < j ==> v@[i + k] == p@[k],
        decreases p.len() - j,
    {
        if v[i + j] != p[j] {
            assert(v@.subrange(i as int, i + p.len())[j as int] != p@[j as int]);
            return false;
        }
        j = j + 1;
    }
    assert(v@.subrange(i as int, i + p.len()) =~= p@);
    true
}

fn append_chars(out: &mut Vec<char>, t: &Vec<char>)
    ensures
        final(out)@ == old(out)@ + t@,
{
    let mut k: usize = 0;
    while k < t.len()
        invariant
            k <= t.len(),
            out@ == old(out)@ + t@.subrange(0, k as int),
        decreases t.len() - k,
    {
        out.push(t[k]);
        k = k + 1;
        assert(out@ =~= old(out)@ + t@.subrange(0, k as int));
    }
    assert(t@.subrange(0, t@.len() as int) =~= t@);
}

/// Replaces every occurrence of `from` in `s` by `to`, left to right; an
/// empty `from` puts `to` before, between and after the characters.
pub fn replace_all(s: &str, from: &str, to: &str) -> (res: String)
    ensures
        res@ == replaced(s@, from@, to@),
{
    let v = chars_of(s);
    let f = chars_of(from);
    let t = chars_of(to);
    if f.len() == 0 {
        let mut out: Vec<char> = Vec::new();
        let mut i: usize = 0;
        assert(v@.subrange(0, v@.len() as int) =~= v@);
        assert(out@ + interleaved(v@, t@) =~= interleaved(v@, t@));
        while i < v.len()
            invariant
                i <= v.len(),
                out@ + interleaved(v@.subrange(i as int, v@.len() as int), t@) == interleaved(v@, t@),
            decreases v.len() - i,
        {
            let ghost rest = v@.subrange(i as int, v@.len() as int);
            let ghost before = out@;
            assert(rest.subrange(1, rest.len() as int) =~= v@.subrange(i + 1, v@.len() as int));
            append_chars(&mut out, &t);
            out.push(v[i]);
            assert(out@ + interleaved(v@.subrange(i + 1, v@.len() as int), t@)
                =~= before + interleaved(rest, t@));
            i = i + 1;
        }
        let ghost before = out@;
        assert(v@.subrange(v@.len() as int, v@.len() as int) =~= Seq::<char>::empty());
        append_chars(&mut out, &t);
        assert(out@ =~= before + interleaved(Seq::<char>::empty(), t@));
        return string_of(&out);
    }
    let mut out: Vec<char> = Vec::new();
    let mut i: usize = 0;
    assert(v@.subrange(0, v@.len() as int) =~= v@);
    assert(out@ + replaced(v@, f@, t@) =~= replaced(v@, f@, t@));
    while i < v.len()
        invariant
            v@ == s@,
            f@ == from@,
            t@ == to@,
            f@.len() > 0,
            i <= v.len(),
            out@ + replaced(v@.subrange(i as int, v@.len() as int), f@, t@) == replaced(v@, f@, t@),
        decreases v.len() - i,
    {
        let ghost rest = v@.subrange(i as int, v@.len() as int);
        let ghost before = out@;
        if matches_at(&v, i, &f) {
            assert(occurs_at(rest, 0, f@)) by {
                assert(rest.subrange(0, f@.len() as int) =~= v@.subrange(i as int, i + f@.len()));
            }
            assert(rest.subrange(f@.len() as int, rest.len() as int)
                =~= v@.subrange(i + f@.len(), v@.len() as int));
            let mut k: usize = 0;
            while k < t.len()
                invariant
                    k <= t.len(),
                    out@ == before + t@.subrange(0, k as int),
                decreases t.len() - k,
            {
                out.push(t[k]);
                k = k + 1;
                assert(out@ =~= before + t@.subrange(0, k as int));
            }
            assert(t@.subrange(0, t@.len() as int) =~= t@);
            assert(out@ + replaced(v@.subrange(i + f@.len(), v@.len() as int), f@, t@)
                =~= before + replaced(rest, f@, t@));
            i = i + f.len();
        } else {
            assert(!occurs_at(rest, 0, f@)) by {
                if occurs_at(rest, 0, f@) {
                    assert(rest.subrange(0, f@.len() as int) =~= v@.subrange(i as int, i + f@.len()));
                }
            }
            assert(rest.subrange(1, rest.len() as int) =~= v@.subrange(i + 1, v@.len() as int));
            out.push(v[i]);
            assert(out@ + replaced(v@.subrange(i + 1, v@.len() as int), f@, t@)
                =~= before + replaced(rest, f@, t@));
            i = i + 1;
        }
    }
    assert(v@.subrange(v@.len() as int, v@.len() as int) =~= Seq::<char>::empty());
    assert(out@ + Seq::<char>::empty() =~= out@);
    string_of(&out)
}

/// Whether `s` begins with `p`.
pub fn starts_with(s: &str, p: &str) -> (b: bool)
    ensures
        b == p@.is_prefix_of(s@),
{
    let v = chars_of(s);
    let q = chars_of(p);
    let b = matches_at(&v, 0, &q);
    proof {
        if b {
            assert(v@.subrange(0, q@.len() as int) =~= q@);
        }
        if p@.is_prefix_of(s@) {
            assert(occurs_at(v@, 0, q@));
        }
    }
    b
}

/// Whether two strings hold the same characters.
pub fn same_text(a: &str, b: &str) -> (r: bool)
    ensures
        r == (a@ == b@),
{
    let v = chars_of(a);
    let w = chars_of(b);
    if v.len() != w.len() {
        return false;
    }
    let r = matches_at(&v, 0, &w);
    proof {
        if r {
            assert(v@.subrange(0, w@.len() as int) =~= v@);
        }
        if a@ == b@ {
            assert(v@.subrange(0, w@.len() as int) =~= w@);
        }
    }
    r
}

/// The separators that a grid reference may hold: space, colon and hyphen.
pub open spec fn is_grid_separator(c: char) -> bool {
    c == ' ' || c == ':' || c == '-'
}

/// `s` without its grid separators, the other characters kept in order.
pub open spec fn grid_compact(s: Seq<char>) -> Seq<char>
    decreases s.len(),
{
    if s.len() == 0 {
        s
    } else if is_grid_separator(s.last()) {
        grid_compact(s.drop_last())
    } else {
        grid_compact(s.drop_last()).push(s.last())
    }
}

/// A compacted grid reference holds no separator.
pub proof fn lemma_grid_compact_has_no_separator(s: Seq<char>)
    ensures
        forall|i: int| 0 <= i < grid_compact(s).len() ==> !is_grid_separator(#[trigger] grid_compact(s)[i]),
    decreases s.len(),
{
    if s.len() > 0 {
        lemma_grid_compact_has_no_separator(s.drop_last());
        let prev = grid_compact(s.drop_last());
        if !is_grid_separator(s.last()) {
            assert forall|i: int| 0 <= i < prev.push(s.last()).len() implies
                !is_grid_separator(#[trigger] prev.push(s.last())[i]) by {
                if i < prev.len() {
                    assert(prev.push(s.last())[i] == prev[i]);
                }
            }
        }
    }
}

/// A grid reference without separators is left as it is.
pub proof fn lemma_grid_compact_keeps_compact(s: Seq<char>)
    requires
        forall|i: int| 0 <= i < s.len() ==> !is_grid_separator(#[trigger] s[i]),
    ensures
        grid_compact(s) == s,
    decreases s.len(),
{
    if s.len() > 0 {
        assert(forall|i: int| 0 <= i < s.drop_last().len() ==> s.drop_last()[i] == s[i]);
        lemma_grid_compact_keeps_compact(s.drop_last());
        assert(!is_grid_separator(s[s.len() - 1]));
        assert(s.drop_last().push(s.last()) =~= s);
    }
}

/// Compacting a grid reference twice is compacting it once.
pub proof fn lemma_grid_compact_idempotent(s: Seq<char>)
    ensures
        grid_compact(grid_compact(s)) == grid_compact(s),
{
    lemma_grid_compact_has_no_separator(s);
    lemma_grid_compact_keeps_compact(grid_compact(s));
}

/// Removes every space, colon and hyphen from a grid reference.
pub fn compact_grid(s: &str) -> (res: String)
    ensures
        res@ == grid_compact(s@),
{
    let v = chars_of(s);
    let mut out = String::new();
    let mut i: usize = 0;
    while i < v.len()
        invariant
            v@ == s@,
            i <= v.len(),
            out@ == grid_compact(v@.subrange(0, i as int)),
        decreases v.len() - i,
    {
        let c = v[i];
        assert(v@.subrange(0, i + 1).drop_last() =~= v@.subrange(0, i as int));
        if !(c == ' ' || c == ':' || c == '-') {
            push_char(&mut out, c);
        }
        i = i + 1;
    }
    assert(v@.subrange(0, v@.len() as int) =~= v@);
    out
}

/// What `str::to_lowercase` returns for a string (Unicode lower-case mapping).
pub uninterp spec fn lowercase(s: Seq<char>) -> Seq<char>;

/// `str::to_lowercase`: its result is named `lowercase` of the argument.
#[verifier::external_body]
pub(crate) fn to_lowercase(s: &str) -> (res: String)
    ensures
        res@ == lowercase(s@),
{
    s.to_lowercase()
}

} // verus!
