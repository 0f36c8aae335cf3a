//! Verified text helpers: equality, substring search, trimming and
//! splitting, each specified over the character sequences of its inputs.

use vstd::prelude::*;

verus! {

/// Character-by-character string comparison, proved equivalent to equality
/// of the two views.
pub fn str_eq(a: &str, b: &str) -> (r: bool)
    ensures
        r == (a@ == b@),
{
    let la = a.unicode_len();
    let lb = b.unicode_len();
    if la != lb {
        assert(a@ != b@) by {
            assert(a@.len() != b@.len());
        }
        return false;
    }
    let mut k: usize = 0;
    while k < la
        invariant
            la == a@.len(),
            lb == b@.len(),
            la == lb,
            k <= la,
            forall|j: int| 0 <= j < k ==> a@[j] == b@[j],
        decreases la - k,
    {
        if a.get_char(k) != b.get_char(k) {
            return false;
        }
        k += 1;
    }
    proof {
        assert(a@ =~= b@);
    }
    true
}

/// The needle `n` occurs in `h` starting at position `i`.
pub open spec fn matches_at(h: Seq<char>, n: Seq<char>, i: int) -> bool {
    0 <= i && i + n.len() <= h.len() && h.subrange(i, i + n.len() as int) == n
}

/// The needle `n` occurs somewhere in `h`.
pub open spec fn contains_seq(h: Seq<char>, n: Seq<char>) -> bool {
    exists|i: int| matches_at(h, n, i)
}

fn matches_at_exec(h: &str, n: &str, i: usize) -> (r: bool)
    requires
        i + n@.len() <= h@.len(),
        h@.len() <= usize::MAX,
    ensures
        r == matches_at(h@, n@, i as int),
{
    let nl = n.unicode_len();
    let mut j: usize = 0;
    while j < nl
        invariant
            nl == n@.len(),
            i + nl <= h@.len(),
            h@.len() <= usize::MAX,
            j <= nl,
            forall|k: int| 0 <= k < j ==> h@[i + k] == n@[k],
        decreases nl - j,
    {
        if h.get_char(i + j) != n.get_char(j) {
            assert(h@.subrange(i as int, i + nl as int)[j as int] != n@[j as int]);
            return false;
        }
        j += 1;
    }
    proof {
        assert(h@.subrange(i as int, i + nl as int) =~= n@);
    }
    true
}

/// Substring search, proved equivalent to `contains_seq` on the views.
pub fn str_contains(h: &str, n: &str) -> (r: bool)
    ensures
        r == contains_seq(h@, n@),
{
    let hl = h.unicode_len();
    let nl = n.unicode_len();
    if nl > hl {
        assert(!contains_seq(h@, n@)) by {
            assert(forall|i: int| !matches_at(h@, n@, i));
        }
        return false;
    }
    if nl == 0 {
        assert(matches_at(h@, n@, 0)) by {
            assert(h@.subrange(0, 0) =~= n@);
        }
        return true;
    }
    let mut i: usize = 0;
    while i <= hl - nl
        invariant
            hl == h@.len(),
            nl == n@.len(),
            1 <= nl <= hl,
            i <= hl - nl + 1,
            forall|k: int| 0 <= k < i ==> !matches_at(h@, n@, k),
        decreases hl - nl - i + 1,
    {
        if matches_at_exec(h, n, i) {
            return true;
        }
        i += 1;
    }
    assert(!contains_seq(h@, n@)) by {
        assert(forall|k: int| matches_at(h@, n@, k) ==> 0 <= k <= hl - nl);
    }
    false
}

/// The blank characters that trimming removes.
pub open spec fn is_blank(c: char) -> bool {
    c == ' ' || c == '\t' || c == '\n' || c == '\r'
}

fn is_blank_exec(c: char) -> (r: bool)
    ensures
        r == is_blank(c),
{
    c == ' ' || c == '\t' || c == '\n' || c == '\r'
}

/// `s` with leading blanks removed.
pub open spec fn trim_front(s: Seq<char>) -> Seq<char>
    decreases s.len(),
{
    if s.len() > 0 && is_blank(s[0]) {
        trim_front(s.drop_first())
    } else {
        s
    }
}

/// `s` with trailing blanks removed.
pub open spec fn trim_back(s: Seq<char>) -> Seq<char>
    decreases s.len(),
{
    if s.len() > 0 && is_blank(s[s.len() - 1]) {
        trim_back(s.drop_last())
    } else {
        s
    }
}

/// `s` with leading and trailing blanks removed.
pub open spec fn trimmed(s: Seq<char>) -> Seq<char> {
    trim_back(trim_front(s))
}

proof fn lemma_trim_front_prefix(s: Seq<char>, i: int)
    requires
        0 <= i <= s.len(),
        forall|j: int| 0 <= j < i ==> is_blank(s[j]),
        i < s.len() ==> !is_blank(s[i]),
    ensures
        trim_front(s) =~= s.subrange(i, s.len() as int),
    decreases i,
{
    if i == 0 {
        if s.len() > 0 {
            assert(!is_blank(s[0]));
        }
        assert(trim_front(s) =~= s.subrange(0, s.len() as int));
    } else {
        assert(is_blank(s[0]));
        lemma_trim_front_prefix(s.drop_first(), i - 1);
        assert(s.drop_first().subrange(i - 1, s.drop_first().len() as int) =~= s.subrange(
            i,
            s.len() as int,
        ));
    }
}

proof fn lemma_trim_back_suffix(s: Seq<char>, i: int)
    requires
        0 <= i <= s.len(),
        forall|j: int| i <= j < s.len() ==> is_blank(s[j]),
        i > 0 ==> !is_blank(s[i - 1]),
    ensures
        trim_back(s) =~= s.subrange(0, i),
    decreases s.len() - i,
{
    if i == s.len() {
        if s.len() > 0 {
            assert(!is_blank(s[s.len() - 1]));
        }
        assert(trim_back(s) =~= s.subrange(0, s.len() as int));
    } else {
        assert(is_blank(s[s.len() - 1]));
        lemma_trim_back_suffix(s.drop_last(), i);
        assert(s.drop_last().subrange(0, i) =~= s.subrange(0, i));
    }
}

/// Remove leading and trailing blanks, proved to return `trimmed` of the view.
pub fn trim_str(s: &str) -> (r: String)
    ensures
        r@ == trimmed(s@),
{
    let len = s.unicode_len();
    let mut a: usize = 0;
    while a < len && is_blank_exec(s.get_char(a))
        invariant
            len == s@.len(),
            a <= len,
            forall|j: int| 0 <= j < a ==> is_blank(s@[j]),
        decreases len - a,
    {
        a += 1;
    }
    proof {
        lemma_trim_front_prefix(s@, a as int);
    }
    let mut b: usize = len;
    while b > a && is_blank_exec(s.get_char(b - 1))
        invariant
            len == s@.len(),
            a <= b <= len,
            forall|j: int| 0 <= j < a ==> is_blank(s@[j]),
            a < len ==> !is_blank(s@[a as int]),
            forall|j: int| b <= j < len ==> is_blank(s@[j]),
        decreases b,
    {
        b -= 1;
    }
    let out = s.substring_char(a, b);
    proof {
        let f = trim_front(s@);
        assert(f =~= s@.subrange(a as int, len as int));
        if b > a {
            assert(!is_blank(s@[b - 1]));
        }
        lemma_trim_back_suffix(f, b - a);
        assert(f.subrange(0, b - a) =~= s@.subrange(a as int, b as int));
    }
    out.to_owned()
}

/// Index of the first occurrence of `sep` in `s`, or `s.len()` when absent.
pub open spec fn first_sep(s: Seq<char>, sep: char) -> nat
    decreases s.len(),
{
    if s.len() == 0 {
        0
    } else if s[0] == sep {
        0
    } else {
        1 + first_sep(s.drop_first(), sep)
    }
}

/// The pieces of `s` between occurrences of the separator `sep`, in order;
/// a string without the separator yields itself as the only piece.
pub open spec fn split_seq(s: Seq<char>, sep: char) -> Seq<Seq<char>>
    decreases s.len(),
{
    let i = first_sep(s, sep) as int;
    if i < s.len() {
        seq![s.subrange(0, i)] + split_seq(s.subrange(i + 1, s.len() as int), sep)
    } else {
        seq![s]
    }
}

proof fn lemma_first_sep_at(s: Seq<char>, sep: char, i: int)
    requires
        0 <= i < s.len(),
        s[i] == sep,
        forall|j: int| 0 <= j < i ==> s[j] != sep,
    ensures
        first_sep(s, sep) == i,
    decreases i,
{
    if i > 0 {
        lemma_first_sep_at(s.drop_first(), sep, i - 1);
    }
}

proof fn lemma_first_sep_none(s: Seq<char>, sep: char)
    requires
        forall|j: int| 0 <= j < s.len() ==> s[j] != sep,
    ensures
        first_sep(s, sep) == s.len(),
    decreases s.len(),
{
    if s.len() > 0 {
        lemma_first_sep_none(s.drop_first(), sep);
    }
}

proof fn lemma_split_step(s: Seq<char>, sep: char, start: int, k: int, om: Seq<Seq<char>>, g: Seq<
    Seq<char>,
>)
    requires
        0 <= start <= k < s.len(),
        s[k] == sep,
        forall|j: int| start <= j < k ==> s[j] != sep,
        om + split_seq(s.subrange(start, s.len() as int), sep).map_values(
            |q: Seq<char>| trimmed(q),
        ) == g,
    ensures
        (om + seq![trimmed(s.subrange(start, k))]) + split_seq(
            s.subrange(k + 1, s.len() as int),
            sep,
        ).map_values(|q: Seq<char>| trimmed(q)) == g,
{
    let tr = |q: Seq<char>| trimmed(q);
    let rest = s.subrange(start, s.len() as int);
    let tail = s.subrange(k + 1, s.len() as int);
    let i = k - start;
    assert(rest[i] == sep);
    assert(forall|j: int| 0 <= j < i ==> rest[j] != sep);
    lemma_first_sep_at(rest, sep, i);
    assert(rest.subrange(0, i) =~= s.subrange(start, k));
    assert(rest.subrange(i + 1, rest.len() as int) =~= tail);
    assert(split_seq(rest, sep) == seq![rest.subrange(0, i)] + split_seq(tail, sep));
    assert((seq![rest.subrange(0, i)] + split_seq(tail, sep)).map_values(tr)
        =~= seq![trimmed(s.subrange(start, k))] + split_seq(tail, sep).map_values(tr));
    assert((om + seq![trimmed(s.subrange(start, k))]) + split_seq(tail, sep).map_values(tr)
        =~= om + (seq![trimmed(s.subrange(start, k))] + split_seq(tail, sep).map_values(tr)));
}

proof fn lemma_split_last(s: Seq<char>, sep: char, start: int, om: Seq<Seq<char>>, g: Seq<
    Seq<char>,
>)
    requires
        0 <= start <= s.len(),
        forall|j: int| start <= j < s.len() ==> s[j] != sep,
        om + split_seq(s.subrange(start, s.len() as int), sep).map_values(
            |q: Seq<char>| trimmed(q),
        ) == g,
    ensures
        om + seq![trimmed(s.subrange(start, s.len() as int))] == g,
{
    let tr = |q: Seq<char>| trimmed(q);
    let rest = s.subrange(start, s.len() as int);
    lemma_first_sep_none(rest, sep);
    assert(split_seq(rest, sep) == seq![rest]);
    assert(seq![rest].map_values(tr) =~= seq![trimmed(rest)]);
}

/// Split `s` at each occurrence of `sep` and trim every piece; the result
/// is exactly `split_seq` followed by `trimmed`, piece by piece.
pub fn split_and_trim(s: &str, sep: char) -> (r: Vec<String>)
    ensures
        r@.map_values(|p: String| p@) == split_seq(s@, sep).map_values(|q: Seq<char>| trimmed(q)),
{
    let ghost goal = split_seq(s@, sep).map_values(|q: Seq<char>| trimmed(q));
    let len = s.unicode_len();
    let mut out: Vec<String> = Vec::new();
    let mut start: usize = 0;
    let mut k: usize = 0;
    proof {
        assert(s@.subrange(0, len as int) =~= s@);
        assert(out@.map_values(|p: String| p@) =~= Seq::<Seq<char>>::empty());
        assert(Seq::<Seq<char>>::empty() + goal =~= goal);
    }
    while k < len
        invariant
            len == s@.len(),
            start <= k <= len,
            goal == split_seq(s@, sep).map_values(|q: Seq<char>| trimmed(q)),
            forall|j: int| start <= j < k ==> s@[j] != sep,
            out@.map_values(|p: String| p@) + split_seq(
                s@.subrange(start as int, len as int),
                sep,
            ).map_values(|q: Seq<char>| trimmed(q)) == goal,
        decreases len - k,
    {
        if s.get_char(k) == sep {
            let piece = s.substring_char(start, k);
            let t = trim_str(piece);
            proof {
                lemma_split_step(
                    s@,
                    sep,
                    start as int,
                    k as int,
                    out@.map_values(|p: String| p@),
                    goal,
                );
                assert((out@ + seq![t]).map_values(|p: String| p@) =~= out@.map_values(
                    |p: String| p@,
                ) + seq![t@]);
            }
            out.push(t);
            start = k + 1;
        }
        k += 1;
    }
    let piece = s.substring_char(start, len);
    let t = trim_str(piece);
    proof {
        lemma_split_last(s@, sep, start as int, out@.map_values(|p: String| p@), goal);
        assert((out@ + seq![t]).map_values(|p: String| p@) =~= out@.map_values(|p: String| p@)
            + seq![t@]);
    }
    out.push(t);
    out
}

} // verus!
