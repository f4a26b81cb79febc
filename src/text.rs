//! Character-level helpers: brace collapsing, substring tests and path
//! splitting.
use vstd::prelude::*;

verus! {

/// Relies on str::chars: the characters of `s`, in order.
#[verifier::external_body]
pub(crate) fn chars_of(s: &str) -> (r: Vec<char>)
    ensures
        r@ == s@,
{
    s.chars().collect()
}

/// Relies on String's FromIterator<&char>: the string made of `v`'s characters.
#[verifier::external_body]
pub(crate) fn string_of(v: &Vec<char>) -> (r: String)
    ensures
        r@ == v@,
{
    v.iter().collect()
}

/// `s` holds two `c` in a row somewhere.
pub open spec fn has_pair(s: Seq<char>, c: char) -> bool {
    exists|i: int| 0 <= i < s.len() - 1 && #[trigger] s[i] == c && s[i + 1] == c
}

/// `s` with each run of two `c`, read from the left without overlap, made one.
pub open spec fn collapse(s: Seq<char>, c: char) -> Seq<char>
    decreases s.len(),
{
    if s.len() == 0 {
        s
    } else if s.len() >= 2 && s[0] == c && s[1] == c {
        seq![c] + collapse(s.subrange(2, s.len() as int), c)
    } else {
        seq![s[0]] + collapse(s.subrange(1, s.len() as int), c)
    }
}

/// Whether `s` holds two `c` in a row.
pub fn find_pair(s: &Vec<char>, c: char) -> (r: bool)
    ensures
        r == has_pair(s@, c),
{
    let mut i: usize = 0;
    while i < s.len()
        invariant
            forall|j: int| 0 <= j < i && j < s@.len() - 1 ==> !(#[trigger] s@[j] == c && s@[j + 1] == c),
        decreases s@.len() - i,
    {
        if i + 1 < s.len() && s[i] == c && s[i + 1] == c {
            return true;
        }
        i = i + 1;
    }
    false
}

/// Collapses every pair of `c` in `s` into one `c`.
pub fn collapse_pairs(s: &Vec<char>, c: char) -> (r: Vec<char>)
    ensures
        r@ == collapse(s@, c),
{
    let mut out: Vec<char> = Vec::new();
    let mut i: usize = 0;
    assert(s@.subrange(0, s@.len() as int) =~= s@);
    while i < s.len()
        invariant
            0 <= i <= s@.len(),
            out@ + collapse(s@.subrange(i as int, s@.len() as int), c) == collapse(s@, c),
        decreases s@.len() - i,
    {
        let ghost rest = s@.subrange(i as int, s@.len() as int);
        if i + 1 < s.len() && s[i] == c && s[i + 1] == c {
            assert(rest.subrange(2, rest.len() as int) =~= s@.subrange(i + 2, s@.len() as int));
            assert(out@.push(c) + collapse(s@.subrange(i + 2, s@.len() as int), c) =~= out@ + collapse(rest, c));
            out.push(c);
            i = i + 2;
        } else {
            assert(rest.subrange(1, rest.len() as int) =~= s@.subrange(i + 1, s@.len() as int));
            assert(out@.push(s@[i as int]) + collapse(s@.subrange(i + 1, s@.len() as int), c) =~= out@ + collapse(rest, c));
            out.push(s[i]);
            i = i + 1;
        }
    }
    assert(s@.subrange(s@.len() as int, s@.len() as int) =~= Seq::<char>::empty());
    assert(out@ + collapse(Seq::<char>::empty(), c) =~= out@);
    out
}

/// `needle` occurs in `s`.
pub open spec fn contains(s: Seq<char>, needle: Seq<char>) -> bool {
    exists|i: int| 0 <= i && i + needle.len() <= s.len() && #[trigger] s.subrange(i, i + needle.len()) == needle
}

/// Whether `needle` occurs in `s`.
pub fn find_text(s: &Vec<char>, needle: &Vec<char>) -> (r: bool)
    ensures
        r == contains(s@, needle@),
{
    let n = needle.len();
    let mut i: usize = 0;
    while n <= s.len() && i <= s.len() - n
        invariant
            n == needle@.len(),
            forall|k: int| 0 <= k < i && k + n <= s@.len() ==> #[trigger] s@.subrange(k, k + n) != needle@,
        decreases s@.len() + 1 - i,
    {
        let mut j: usize = 0;
        let mut same = true;
        while j < n && same
            invariant
                n == needle@.len(),
                i + n <= s@.len() <= usize::MAX,
                0 <= j <= n,
                forall|m: int| 0 <= m < j ==> s@[i + m] == needle@[m],
                !same ==> j < n && s@[i + j] != needle@[j as int],
            decreases n - j + (if same { 1int } else { 0int }),
        {
            let k: usize = i + j;
            if s[k] != needle[j] {
                same = false;
            } else {
                j = j + 1;
            }
        }
        if !same {
            assert(s@.subrange(i as int, i + n)[j as int] != needle@[j as int]);
        } else {
            assert(s@.subrange(i as int, i + n) =~= needle@);
            return true;
        }
        i = i + 1;
    }
    assert forall|k: int| 0 <= k && k + n <= s@.len() implies #[trigger] s@.subrange(k, k + n) != needle@ by {
        assert(k < i);
    }
    false
}

/// The segments joined back with `/` between each two.
pub open spec fn join(segs: Seq<Seq<char>>) -> Seq<char>
    decreases segs.len(),
{
    if segs.len() == 0 {
        Seq::empty()
    } else if segs.len() == 1 {
        segs[0]
    } else {
        join(segs.drop_last()) + seq!['/'] + segs.last()
    }
}

/// `segs` is `s` cut at each `/`: at least one segment, none holding `/`, and
/// joined back they give `s`.
pub open spec fn is_split(segs: Seq<Seq<char>>, s: Seq<char>) -> bool {
    &&& segs.len() >= 1
    &&& forall|k: int| 0 <= k < segs.len() ==> !(#[trigger] segs[k]).contains('/')
    &&& join(segs) == s
}

/// The views of a list of strings.
pub open spec fn views(v: Seq<String>) -> Seq<Seq<char>> {
    v.map_values(|x: String| x@)
}

/// Cuts a relative path at each `/`; empty segments are kept.
pub fn split_path(path: &str) -> (r: Vec<String>)
    ensures
        is_split(views(r@), path@),
{
    let s = chars_of(path);
    let mut segs: Vec<String> = Vec::new();
    let mut cur: Vec<char> = Vec::new();
    let mut i: usize = 0;
    while i < s.len()
        invariant
            0 <= i <= s@.len(),
            s@ == path@,
            join(views(segs@).push(cur@)) == s@.subrange(0, i as int),
            forall|k: int| 0 <= k < segs@.len() ==> !(#[trigger] segs@[k])@.contains('/'),
            !cur@.contains('/'),
        decreases s@.len() - i,
    {
        let ch = s[i];
        let ghost before = views(segs@).push(cur@);
        assert(s@.subrange(0, i + 1) =~= s@.subrange(0, i as int).push(ch));
        if ch == '/' {
            let piece = string_of(&cur);
            segs.push(piece);
            cur = Vec::new();
            let ghost after = views(segs@).push(cur@);
            assert(views(segs@) =~= before);
            assert(after.drop_last() =~= before);
            assert(join(after) =~= join(before) + seq!['/']);
        } else {
            cur.push(ch);
            let ghost after = views(segs@).push(cur@);
            assert(after.drop_last() =~= before.drop_last());
            assert(!cur@.contains('/')) by {
                assert forall|m: int| 0 <= m < cur@.len() implies cur@[m] != '/' by {
                    if m < cur@.len() - 1 {
                        assert(cur@[m] == cur@.drop_last()[m]);
                    }
                }
            }
            assert(join(after) =~= join(before).push(ch));
        }
        i = i + 1;
    }
    let last = string_of(&cur);
    let ghost old_segs = segs@;
    segs.push(last);
    assert(views(segs@) =~= views(old_segs).push(cur@));
    assert(s@.subrange(0, s@.len() as int) =~= s@);
    assert forall|k: int| 0 <= k < views(segs@).len() implies !(#[trigger] views(segs@)[k]).contains('/') by {
        assert(views(segs@)[k] == segs@[k]@);
        if k < segs@.len() - 1 {
            assert(segs@[k] == old_segs[k]);
        }
    }
    segs
}

} // verus!
