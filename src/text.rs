use vstd::prelude::*;

verus! {

/// Index of the first `c` in `s`, or -1 when there is none.
pub open spec fn first_index(s: Seq<char>, c: char) -> int
    decreases s.len(),
{
    if s.len() == 0 {
        -1
    } else if s[0] == c {
        0
    } else {
        let r = first_index(s.drop_first(), c);
        if r < 0 {
            -1
        } else {
            r + 1
        }
    }
}

/// Index of the last `c` in `s`, or -1 when there is none.
pub open spec fn last_index(s: Seq<char>, c: char) -> int
    decreases s.len(),
{
    if s.len() == 0 {
        -1
    } else if s.last() == c {
        s.len() - 1
    } else {
        last_index(s.drop_last(), c)
    }
}

/// The pieces of `s` between occurrences of `c`; there is always at least one.
pub open spec fn split_on(s: Seq<char>, c: char) -> Seq<Seq<char>>
    decreases s.len(),
{
    if s.len() == 0 {
        seq![Seq::empty()]
    } else if s[0] == c {
        seq![Seq::empty()] + split_on(s.drop_first(), c)
    } else {
        let rest = split_on(s.drop_first(), c);
        rest.update(0, seq![s[0]] + rest[0])
    }
}

/// `b` appended to the path `a` as one more component.
pub open spec fn path_join(a: Seq<char>, b: Seq<char>) -> Seq<char> {
    a + seq!['/'] + b
}

/// The text of each string, in order.
pub open spec fn strings_view(v: Seq<String>) -> Seq<Seq<char>> {
    v.map_values(|x: String| x@)
}

pub proof fn lemma_first_index(s: Seq<char>, c: char)
    ensures
        -1 <= first_index(s, c) < s.len(),
        first_index(s, c) == -1 ==> forall|j: int| 0 <= j < s.len() ==> s[j] != c,
        first_index(s, c) >= 0 ==> s[first_index(s, c)] == c,
        forall|j: int| 0 <= j < first_index(s, c) ==> s[j] != c,
    decreases s.len(),
{
    if s.len() > 0 && s[0] != c {
        lemma_first_index(s.drop_first(), c);
        assert forall|j: int| 1 <= j < s.len() implies s[j] == s.drop_first()[j - 1] by {}
    }
}

pub proof fn lemma_last_index(s: Seq<char>, c: char)
    ensures
        -1 <= last_index(s, c) < s.len(),
        last_index(s, c) == -1 ==> forall|j: int| 0 <= j < s.len() ==> s[j] != c,
        last_index(s, c) >= 0 ==> s[last_index(s, c)] == c,
        forall|j: int| last_index(s, c) < j < s.len() ==> s[j] != c,
    decreases s.len(),
{
    if s.len() > 0 && s.last() != c {
        lemma_last_index(s.drop_last(), c);
        assert forall|j: int| last_index(s, c) < j < s.len() implies s[j] != c by {
            if j < s.len() - 1 {
                assert(s[j] == s.drop_last()[j]);
            }
        }
    }
}

pub proof fn lemma_split_nonempty(s: Seq<char>, c: char)
    ensures
        split_on(s, c).len() >= 1,
    decreases s.len(),
{
    if s.len() > 0 {
        lemma_split_nonempty(s.drop_first(), c);
    }
}

/// A prefix free of `c` joins the first piece of what follows it.
pub proof fn lemma_split_prefix(s: Seq<char>, c: char, k: int)
    requires
        0 <= k <= s.len(),
        forall|j: int| 0 <= j < k ==> s[j] != c,
    ensures
        split_on(s, c) == split_on(s.skip(k), c).update(
            0,
            s.take(k) + split_on(s.skip(k), c)[0],
        ),
    decreases k,
{
    lemma_split_nonempty(s.skip(k), c);
    let tail = split_on(s.skip(k), c);
    if k == 0 {
        assert(s.skip(0) =~= s);
        assert(s.take(0) + tail[0] =~= tail[0]);
        assert(tail.update(0, tail[0]) =~= tail);
    } else {
        let t = s.drop_first();
        assert forall|j: int| 0 <= j < k - 1 implies t[j] != c by {
            assert(t[j] == s[j + 1]);
        }
        lemma_split_prefix(t, c, k - 1);
        assert(t.skip(k - 1) =~= s.skip(k));
        lemma_split_nonempty(t, c);
        let rest = split_on(t, c);
        assert(seq![s[0]] + (t.take(k - 1) + tail[0]) =~= s.take(k) + tail[0]);
        assert(rest.update(0, seq![s[0]] + rest[0]) =~= tail.update(0, s.take(k) + tail[0]));
    }
}

/// Index of the first `c` in `s`.
pub fn find_first(s: &str, c: char) -> (r: Option<usize>)
    ensures
        r is None ==> first_index(s@, c) == -1,
        r matches Some(i) ==> i as int == first_index(s@, c) && i < s@.len(),
{
    proof {
        lemma_first_index(s@, c);
    }
    let n = s.unicode_len();
    let mut i: usize = 0;
    while i < n
        invariant
            n == s@.len(),
            0 <= i <= n,
            forall|j: int| 0 <= j < i ==> s@[j] != c,
        decreases n - i,
    {
        if s.get_char(i) == c {
            proof {
                lemma_first_index(s@, c);
                let f = first_index(s@, c);
                assert(s@[i as int] == c);
                if f >= 0 && f < i {
                    assert(s@[f] != c);
                }
            }
            return Some(i);
        }
        i = i + 1;
    }
    None
}

/// Index of the last `c` in `s`.
pub fn find_last(s: &str, c: char) -> (r: Option<usize>)
    ensures
        r is None ==> last_index(s@, c) == -1,
        r matches Some(i) ==> i as int == last_index(s@, c) && i < s@.len(),
{
    proof {
        lemma_last_index(s@, c);
    }
    let n = s.unicode_len();
    let mut i: usize = n;
    while i > 0
        invariant
            n == s@.len(),
            0 <= i <= n,
            forall|j: int| i <= j < n ==> s@[j] != c,
        decreases i,
    {
        if s.get_char(i - 1) == c {
            proof {
                lemma_last_index(s@, c);
                let f = last_index(s@, c);
                assert(s@[i - 1] == c);
                if f > i - 1 {
                    assert(s@[f] != c);
                }
            }
            return Some(i - 1);
        }
        i = i - 1;
    }
    None
}

/// The characters of `s` from `from` up to `to`, as a new string.
pub fn slice(s: &str, from: usize, to: usize) -> (r: String)
    requires
        from <= to <= s@.len(),
    ensures
        r@ == s@.subrange(from as int, to as int),
{
    String::from_str(s.substring_char(from, to))
}

/// The pieces of `s` between occurrences of `c`.
pub fn split(s: &str, c: char) -> (r: Vec<String>)
    ensures
        strings_view(r@) == split_on(s@, c),
{
    let n = s.unicode_len();
    let mut out: Vec<String> = Vec::new();
    let mut start: usize = 0;
    let mut i: usize = 0;
    proof {
        assert(s@.skip(0) =~= s@);
        assert(strings_view(out@) =~= Seq::<Seq<char>>::empty());
    }
    while i < n
        invariant
            n == s@.len(),
            0 <= start <= i <= n,
            forall|j: int| start <= j < i ==> s@[j] != c,
            split_on(s@, c) == strings_view(out@) + split_on(s@.skip(start as int), c),
        decreases n - i,
    {
        if s.get_char(i) == c {
            let piece = slice(s, start, i);
            let ghost t = s@.skip(start as int);
            let ghost k = i - start;
            proof {
                assert forall|j: int| 0 <= j < k implies t[j] != c by {
                    assert(t[j] == s@[start + j]);
                }
                lemma_split_prefix(t, c, k);
                assert(t.skip(k) =~= s@.skip(i as int));
                assert(s@.skip(i as int).drop_first() =~= s@.skip(i + 1));
                let rest = split_on(s@.skip(i + 1), c);
                assert(t.take(k) =~= piece@);
                assert(split_on(t, c) =~= seq![piece@] + rest);
            }
            let ghost before = out@;
            out.push(piece);
            proof {
                assert(strings_view(out@) =~= strings_view(before).push(piece@));
            }
            start = i + 1;
        }
        i = i + 1;
    }
    let last = slice(s, start, n);
    proof {
        let t = s@.skip(start as int);
        let k = n - start;
        assert forall|j: int| 0 <= j < k implies t[j] != c by {
            assert(t[j] == s@[start + j]);
        }
        lemma_split_prefix(t, c, k);
        assert(t.skip(k) =~= Seq::<char>::empty());
        assert(t.take(k) =~= last@);
        assert(split_on(t, c) =~= seq![last@]);
    }
    let ghost before = out@;
    out.push(last);
    proof {
        assert(strings_view(out@) =~= strings_view(before).push(last@));
    }
    out
}

/// The path `a` with `b` appended as one more component.
pub fn join(a: &str, b: &str) -> (r: String)
    ensures
        r@ == path_join(a@, b@),
{
    let mut r = String::from_str(a);
    proof {
        reveal_strlit("/");
    }
    r.append("/");
    r.append(b);
    r
}

} // verus!
