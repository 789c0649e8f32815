//! Character-level helpers: equality, joining with a separator and splitting on one.
use vstd::prelude::*;
use vstd::string::StrSliceExecFns;
use vstd::string::StringExecFns;

verus! {

/// Compares two strings character by character.
pub fn str_eq(a: &str, b: &str) -> (r: bool)
    ensures
        r == (a@ == b@),
{
    let n = a.unicode_len();
    let m = b.unicode_len();
    if n != m {
        return false;
    }
    let mut i: usize = 0;
    while i < n
        invariant
            n == a@.len(),
            m == b@.len(),
            n == m,
            i <= n,
            a@.subrange(0, i as int) == b@.subrange(0, i as int),
        decreases n - i,
    {
        if a.get_char(i) != b.get_char(i) {
            assert(a@[i as int] != b@[i as int]);
            return false;
        }
        assert(a@.subrange(0, i + 1) == a@.subrange(0, i as int).push(a@[i as int]));
        assert(b@.subrange(0, i + 1) == b@.subrange(0, i as int).push(b@[i as int]));
        i = i + 1;
    }
    assert(a@ == a@.subrange(0, n as int));
    assert(b@ == b@.subrange(0, n as int));
    true
}

/// Whether a separator, a comma and then a space, starts at `i`.
pub open spec fn separator_at(s: Seq<char>, i: int) -> bool {
    0 <= i && i + 1 < s.len() && s[i] == ',' && s[i + 1] == ' '
}

/// The parts of `s` from `start` on, where the scan for a separator has reached `i`.
pub open spec fn split_from(s: Seq<char>, start: int, i: int) -> Seq<Seq<char>>
    decreases s.len() - i,
{
    if i + 1 >= s.len() {
        seq![s.subrange(start, s.len() as int)]
    } else if separator_at(s, i) {
        seq![s.subrange(start, i)] + split_from(s, i + 2, i + 2)
    } else {
        split_from(s, start, i + 1)
    }
}

/// The parts of `s` between separators, left to right; never empty.
pub open spec fn split_parts(s: Seq<char>) -> Seq<Seq<char>> {
    split_from(s, 0, 0)
}

/// The parts joined by separators.
pub open spec fn join_parts(parts: Seq<Seq<char>>) -> Seq<char>
    decreases parts.len(),
{
    if parts.len() == 0 {
        Seq::empty()
    } else if parts.len() == 1 {
        parts[0]
    } else {
        join_parts(parts.drop_last()) + ", "@ + parts.last()
    }
}

/// Splits `s` at each separator, a comma and then a space.
pub fn split_on_separator(s: &str) -> (r: Vec<String>)
    ensures
        r@.map_values(|p: String| p@) == split_parts(s@),
{
    let n = s.unicode_len();
    let mut out: Vec<String> = Vec::new();
    let mut start: usize = 0;
    let mut i: usize = 0;
    while i < n && i + 1 < n
        invariant
            n == s@.len(),
            start <= i <= n,
            out@.map_values(|p: String| p@) + split_from(s@, start as int, i as int) == split_parts(
                s@,
            ),
        decreases n - i,
    {
        if s.get_char(i) == ',' && s.get_char(i + 1) == ' ' {
            let part = s.substring_char(start, i).to_owned();
            let ghost before = out@;
            out.push(part);
            assert(out@.map_values(|p: String| p@) == before.map_values(|p: String| p@).push(
                part@,
            ));
            assert(out@.map_values(|p: String| p@) + split_from(s@, i + 2, i + 2) == before.map_values(
                |p: String| p@,
            ) + split_from(s@, start as int, i as int));
            i = i + 2;
            start = i;
        } else {
            i = i + 1;
        }
    }
    let part = s.substring_char(start, n).to_owned();
    let ghost before = out@;
    out.push(part);
    assert(out@.map_values(|p: String| p@) == before.map_values(|p: String| p@).push(part@));
    out
}

/// Joins the parts with a separator between each two.
pub fn join_with_separator(parts: &Vec<String>) -> (r: String)
    ensures
        r@ == join_parts(parts@.map_values(|p: String| p@)),
{
    let mut out = String::new();
    let mut i: usize = 0;
    while i < parts.len()
        invariant
            i <= parts@.len(),
            out@ == join_parts(parts@.subrange(0, i as int).map_values(|p: String| p@)),
        decreases parts@.len() - i,
    {
        let ghost prefix = parts@.subrange(0, i as int).map_values(|p: String| p@);
        let ghost next = parts@.subrange(0, i + 1).map_values(|p: String| p@);
        assert(next.drop_last() == prefix);
        if i > 0 {
            out.append(", ");
        }
        out.append(parts[i].as_str());
        i = i + 1;
    }
    assert(parts@.subrange(0, parts@.len() as int) == parts@);
    out
}

/// Scanning for separators in `p + b` past `p` is scanning `b`.
proof fn lemma_split_shift(p: Seq<char>, b: Seq<char>, start: int, i: int)
    requires
        0 <= start <= i <= b.len(),
    ensures
        split_from(p + b, p.len() + start, p.len() + i) == split_from(b, start, i),
    decreases b.len() - i,
{
    let s = p + b;
    let n = p.len();
    assert(s.len() == n + b.len());
    if i + 1 >= b.len() {
        assert(s.subrange(n + start, s.len() as int) == b.subrange(start, b.len() as int));
    } else {
        assert(s[n + i] == b[i] && s[n + i + 1] == b[i + 1]);
        if separator_at(b, i) {
            assert(s.subrange(n + start, n + i) == b.subrange(start, i));
            lemma_split_shift(p, b, i + 2, i + 2);
            assert(split_from(s, n + i + 2, n + i + 2) == split_from(s, n + (i + 2), n + (i + 2)));
        } else {
            lemma_split_shift(p, b, start, i + 1);
            assert(split_from(s, n + start, n + i + 1) == split_from(s, n + start, n + (i + 1)));
        }
    }
}

/// A part with no comma, then a separator, then the rest: the part comes first.
proof fn lemma_split_first(a: Seq<char>, c: Seq<char>, i: int)
    requires
        !a.contains(','),
        0 <= i <= a.len(),
    ensures
        split_from(a + ", "@ + c, 0, i) == seq![a] + split_parts(c),
    decreases a.len() - i,
{
    reveal_strlit(", ");
    let s = a + ", "@ + c;
    assert(s.len() == a.len() + 2 + c.len());
    if i < a.len() {
        assert(s[i] == a[i]);
        assert(s[i] != ',');
        lemma_split_first(a, c, i + 1);
    } else {
        assert(s[i] == ',' && s[i + 1] == ' ');
        assert(s.subrange(0, i) == a);
        let p = a + ", "@;
        assert(s == p + c);
        lemma_split_shift(p, c, 0, 0);
        assert(p.len() == i + 2);
    }
}

/// A part with no comma is a single part.
proof fn lemma_split_single(a: Seq<char>, i: int)
    requires
        !a.contains(','),
        0 <= i <= a.len(),
    ensures
        split_from(a, 0, i) == seq![a],
    decreases a.len() - i,
{
    if i + 1 < a.len() {
        assert(a[i] != ',');
        lemma_split_single(a, i + 1);
    } else {
        assert(a.subrange(0, a.len() as int) == a);
    }
}

/// Joining can be unfolded from the front.
proof fn lemma_join_front(parts: Seq<Seq<char>>)
    requires
        parts.len() >= 2,
    ensures
        join_parts(parts) == parts[0] + ", "@ + join_parts(parts.drop_first()),
    decreases parts.len(),
{
    if parts.len() > 2 {
        let dl = parts.drop_last();
        let df = parts.drop_first();
        lemma_join_front(dl);
        assert(dl.drop_first() == df.drop_last());
        assert(df.last() == parts.last());
        assert(dl[0] == parts[0]);
        assert(join_parts(df) == join_parts(df.drop_last()) + ", "@ + df.last());
        assert(join_parts(parts) == join_parts(dl) + ", "@ + parts.last());
        assert((parts[0] + ", "@ + join_parts(dl.drop_first())) + ", "@ + parts.last() == parts[0]
            + ", "@ + (join_parts(df.drop_last()) + ", "@ + df.last()));
    } else {
        let dl = parts.drop_last();
        let df = parts.drop_first();
        assert(df.len() == 1 && dl.len() == 1);
        assert(dl[0] == parts[0] && df[0] == parts[1] && parts.last() == parts[1]);
        assert(join_parts(parts) == join_parts(dl) + ", "@ + parts.last());
    }
}

/// Parts without commas, joined and split again, are the same parts.
pub proof fn lemma_split_join(parts: Seq<Seq<char>>)
    requires
        parts.len() > 0,
        forall|i: int| 0 <= i < parts.len() ==> !(#[trigger] parts[i]).contains(','),
    ensures
        split_parts(join_parts(parts)) == parts,
    decreases parts.len(),
{
    if parts.len() == 1 {
        lemma_split_single(parts[0], 0);
        assert(seq![parts[0]] == parts);
    } else {
        lemma_join_front(parts);
        let rest = parts.drop_first();
        assert forall|i: int| 0 <= i < rest.len() implies !(#[trigger] rest[i]).contains(',') by {
            assert(rest[i] == parts[i + 1]);
        }
        lemma_split_join(rest);
        assert(!parts[0].contains(','));
        lemma_split_first(parts[0], join_parts(rest), 0);
        assert(seq![parts[0]] + rest == parts);
    }
}

} // verus!
