//! Character-level text handling: lines, whitespace-separated words,
//! substring search and trimming, each with its mathematical model.
use vstd::prelude::*;

verus! {

/// Whether a character has the Unicode `White_Space` property
/// (the property that `char::is_whitespace` tests).
pub open spec fn is_white_space(c: char) -> bool {
    ||| ('\u{9}' <= c && c <= '\u{d}')
    ||| c == ' '
    ||| c == '\u{85}'
    ||| c == '\u{a0}'
    ||| c == '\u{1680}'
    ||| ('\u{2000}' <= c && c <= '\u{200a}')
    ||| c == '\u{2028}'
    ||| c == '\u{2029}'
    ||| c == '\u{202f}'
    ||| c == '\u{205f}'
    ||| c == '\u{3000}'
}

/// `pat` occurs in `s` starting at index `i`.
pub open spec fn occurs_at(s: Seq<char>, pat: Seq<char>, i: int) -> bool {
    0 <= i && i + pat.len() <= s.len() && s.subrange(i, i + pat.len()) == pat
}

/// `pat` occurs somewhere in `s`.
pub open spec fn contains(s: Seq<char>, pat: Seq<char>) -> bool {
    exists|i: int| #[trigger] occurs_at(s, pat, i)
}

/// The pieces of `s` between newline characters, in order; there is always
/// one more piece than there are newlines.
pub open spec fn newline_pieces(s: Seq<char>) -> Seq<Seq<char>>
    decreases s.len(),
{
    if s.len() == 0 {
        seq![Seq::<char>::empty()]
    } else {
        let p = newline_pieces(s.drop_last());
        if s.last() == '\n' {
            p.push(Seq::<char>::empty())
        } else {
            p.update(p.len() - 1, p.last().push(s.last()))
        }
    }
}

/// A line that was ended by a newline loses one carriage return at its end.
pub open spec fn strip_cr(line: Seq<char>) -> Seq<char> {
    if line.len() > 0 && line.last() == '\r' {
        line.drop_last()
    } else {
        line
    }
}

/// The lines of `s`: each newline ends a line (dropping a `\r` right before
/// it), and text after the last newline, if any, is a final line.
pub open spec fn lines(s: Seq<char>) -> Seq<Seq<char>> {
    let p = newline_pieces(s);
    let ended = p.drop_last().map_values(|l: Seq<char>| strip_cr(l));
    if p.last().len() == 0 {
        ended
    } else {
        ended.push(p.last())
    }
}

/// The maximal runs of non-whitespace characters of `s`, in order.
pub open spec fn words(s: Seq<char>) -> Seq<Seq<char>>
    decreases s.len(),
{
    if s.len() == 0 {
        Seq::<Seq<char>>::empty()
    } else {
        let w = words(s.drop_last());
        if is_white_space(s.last()) {
            w
        } else if s.len() >= 2 && !is_white_space(s[s.len() - 2]) {
            w.update(w.len() - 1, w.last().push(s.last()))
        } else {
            w.push(seq![s.last()])
        }
    }
}

/// `s` without its leading whitespace.
pub open spec fn trim_start(s: Seq<char>) -> Seq<char>
    decreases s.len(),
{
    if s.len() > 0 && is_white_space(s[0]) {
        trim_start(s.drop_first())
    } else {
        s
    }
}

/// `s` without its trailing whitespace.
pub open spec fn trim_end(s: Seq<char>) -> Seq<char>
    decreases s.len(),
{
    if s.len() > 0 && is_white_space(s.last()) {
        trim_end(s.drop_last())
    } else {
        s
    }
}

/// `s` without leading and trailing whitespace.
pub open spec fn trim(s: Seq<char>) -> Seq<char> {
    trim_end(trim_start(s))
}

pub proof fn lemma_words_last_nonempty(s: Seq<char>)
    ensures
        s.len() > 0 && !is_white_space(s.last()) ==> words(s).len() >= 1,
    decreases s.len(),
{
    if s.len() > 0 {
        lemma_words_last_nonempty(s.drop_last());
    }
}

/// Tests a character for the Unicode `White_Space` property.
pub fn is_whitespace_char(c: char) -> (res: bool)
    ensures
        res == is_white_space(c),
{
    ('\u{9}' <= c && c <= '\u{d}') || c == ' ' || c == '\u{85}' || c == '\u{a0}' || c
        == '\u{1680}' || ('\u{2000}' <= c && c <= '\u{200a}') || c == '\u{2028}' || c
        == '\u{2029}' || c == '\u{202f}' || c == '\u{205f}' || c == '\u{3000}'
}

/// Collects the characters of `s` in order.
pub fn chars_of(s: &str) -> (res: Vec<char>)
    ensures
        res@ == s@,
{
    let mut res: Vec<char> = Vec::new();
    for c in it: s.chars()
        invariant
            res@ == it.seq().take(it.index() as int),
            it.seq() == s@,
    {
        res.push(c);
    }
    res
}

/// A copy of the characters `s[from..to]` as a `String`.
pub fn string_of_range(s: &str, from: usize, to: usize) -> (res: String)
    requires
        from <= to <= s@.len(),
    ensures
        res@ == s@.subrange(from as int, to as int),
{
    let sub = s.substring_char(from, to);
    let res = sub.to_string();
    proof {
        vstd::string::to_string_from_display_ensures_for_str(sub, res);
    }
    res
}

/// Whether `pat` occurs in `chars[start..end]`.
pub fn contains_in(chars: &Vec<char>, start: usize, end: usize, pat: &Vec<char>) -> (res: bool)
    requires
        start <= end <= chars@.len(),
    ensures
        res == contains(chars@.subrange(start as int, end as int), pat@),
{
    let ghost s = chars@.subrange(start as int, end as int);
    let plen = pat.len();
    if plen > end - start {
        assert forall|i: int| !#[trigger] occurs_at(s, pat@, i) by {}
        return false;
    }
    let last = end - start - plen;
    let mut i: usize = 0;
    while i <= last
        invariant
            start <= end <= chars@.len(),
            s == chars@.subrange(start as int, end as int),
            plen == pat@.len(),
            last == end - start - plen,
            forall|k: int| 0 <= k < i ==> !#[trigger] occurs_at(s, pat@, k),
        decreases last + 1 - i,
    {
        let mut j: usize = 0;
        while j < plen && chars[start + i + j] == pat[j]
            invariant
                start <= end <= chars@.len(),
                s == chars@.subrange(start as int, end as int),
                plen == pat@.len(),
                i <= last,
                last == end - start - plen,
                j <= plen,
                forall|k: int| 0 <= k < j ==> s[i + k] == pat@[k],
            decreases plen - j,
        {
            j = j + 1;
        }
        if j == plen {
            assert(s.subrange(i as int, i + plen) =~= pat@);
            assert(occurs_at(s, pat@, i as int));
            return true;
        }
        assert(!occurs_at(s, pat@, i as int)) by {
            if s.subrange(i as int, i + plen) == pat@ {
                assert(s.subrange(i as int, i + plen)[j as int] == s[i + j]);
            }
        }
        i = i + 1;
    }
    assert forall|k: int| !#[trigger] occurs_at(s, pat@, k) by {
        if 0 <= k && k + pat@.len() <= s.len() {
            assert(k < i);
        }
    }
    false
}


/// The character ranges of the lines of `chars` (see `lines`).
#[verifier::spinoff_prover]
pub fn line_bounds(chars: &Vec<char>) -> (res: Vec<(usize, usize)>)
    ensures
        res@.len() == lines(chars@).len(),
        forall|k: int|
            0 <= k < res@.len() ==> res@[k].0 <= res@[k].1 <= chars@.len() && chars@.subrange(
                #[trigger] res@[k].0 as int,
                res@[k].1 as int,
            ) == lines(chars@)[k],
{
    let n = chars.len();
    let mut res: Vec<(usize, usize)> = Vec::new();
    let mut start: usize = 0;
    let mut i: usize = 0;
    proof {
        assert(chars@.take(0) =~= Seq::<char>::empty());
    }
    while i < n
        invariant
            n == chars@.len(),
            start <= i <= n,
            newline_pieces(chars@.take(i as int)).len() == res@.len() + 1,
            forall|k: int|
                0 <= k < res@.len() ==> res@[k].0 <= res@[k].1 <= chars@.len() && chars@.subrange(
                    #[trigger] res@[k].0 as int,
                    res@[k].1 as int,
                ) == strip_cr(newline_pieces(chars@.take(i as int))[k]),
            newline_pieces(chars@.take(i as int)).last() == chars@.subrange(start as int, i as int),
        decreases n - i,
    {
        let ghost p = newline_pieces(chars@.take(i as int));
        proof {
            assert(chars@.take(i + 1).drop_last() =~= chars@.take(i as int));
            assert(chars@.take(i + 1).last() == chars@[i as int]);
        }
        let c = chars[i];
        if c == '\n' {
            let end = if i > start && chars[i - 1] == '\r' {
                i - 1
            } else {
                i
            };
            proof {
                let cur = chars@.subrange(start as int, i as int);
                assert(strip_cr(cur) =~= chars@.subrange(start as int, end as int));
            }
            res.push((start, end));
            start = i + 1;
            proof {
                let q = newline_pieces(chars@.take(i + 1));
                assert(q == p.push(Seq::<char>::empty()));
                assert forall|k: int| 0 <= k < res@.len() implies res@[k].0 <= res@[k].1 <= chars@.len()
                    && chars@.subrange(#[trigger] res@[k].0 as int, res@[k].1 as int) == strip_cr(q[k]) by {
                    assert(q[k] == p[k]);
                }
                assert(chars@.subrange(start as int, (i + 1) as int) =~= Seq::<char>::empty());
            }
        } else {
            proof {
                let q = newline_pieces(chars@.take(i + 1));
                assert(q == p.update(p.len() - 1, p.last().push(c)));
                assert forall|k: int| 0 <= k < res@.len() implies res@[k].0 <= res@[k].1 <= chars@.len()
                    && chars@.subrange(#[trigger] res@[k].0 as int, res@[k].1 as int) == strip_cr(q[k]) by {
                    assert(q[k] == p[k]);
                }
                assert(chars@.subrange(start as int, (i + 1) as int) =~= chars@.subrange(
                    start as int,
                    i as int,
                ).push(c));
            }
        }
        i = i + 1;
        assert(forall|k: int|
                0 <= k < res@.len() ==> #[trigger] res@[k].0 <= res@[k].1 <= chars@.len());
        assert(forall|k: int|
                0 <= k < res@.len() ==> chars@.subrange(
                    #[trigger] res@[k].0 as int,
                    res@[k].1 as int,
                ) == strip_cr(newline_pieces(chars@.take(i as int))[k]));
    }
    let ghost p = newline_pieces(chars@);
    proof {
        assert(chars@.take(n as int) =~= chars@);
    }
    let ghost ended = p.drop_last().map_values(|l: Seq<char>| strip_cr(l));
    if start < n {
        res.push((start, n));
        proof {
            assert(lines(chars@) == ended.push(p.last()));
        }
    } else {
        proof {
            assert(p.last().len() == 0);
            assert(lines(chars@) == ended);
        }
    }
    res
}


/// The character ranges of the words of `chars[start..end]` (see `words`).
pub fn word_bounds(chars: &Vec<char>, start: usize, end: usize) -> (res: Vec<(usize, usize)>)
    requires
        start <= end <= chars@.len(),
    ensures
        res@.len() == words(chars@.subrange(start as int, end as int)).len(),
        forall|k: int|
            0 <= k < res@.len() ==> start <= res@[k].0 <= res@[k].1 <= end && chars@.subrange(
                #[trigger] res@[k].0 as int,
                res@[k].1 as int,
            ) == words(chars@.subrange(start as int, end as int))[k],
{
    let mut res: Vec<(usize, usize)> = Vec::new();
    let mut in_word = false;
    let mut wstart: usize = start;
    let mut i: usize = start;
    proof {
        assert(chars@.subrange(start as int, start as int) =~= Seq::<char>::empty());
    }
    while i < end
        invariant
            start <= end <= chars@.len(),
            start <= i <= end,
            words(chars@.subrange(start as int, i as int)).len() == res@.len() + if in_word {
                1int
            } else {
                0int
            },
            forall|k: int|
                0 <= k < res@.len() ==> start <= res@[k].0 <= res@[k].1 <= end && chars@.subrange(
                    #[trigger] res@[k].0 as int,
                    res@[k].1 as int,
                ) == words(chars@.subrange(start as int, i as int))[k],
            in_word ==> start <= wstart < i && !is_white_space(chars@[i - 1]) && words(
                chars@.subrange(start as int, i as int),
            ).last() == chars@.subrange(wstart as int, i as int),
            !in_word ==> (i == start || is_white_space(chars@[i - 1])),
        decreases end - i,
    {
        let ghost t = chars@.subrange(start as int, i as int);
        let ghost w = words(t);
        let c = chars[i];
        let ghost t2 = chars@.subrange(start as int, i + 1);
        proof {
            assert(t2.drop_last() =~= t);
            assert(t2.last() == c);
            if t2.len() >= 2 {
                assert(t2[t2.len() - 2] == chars@[i - 1]);
            }
        }
        if is_whitespace_char(c) {
            if in_word {
                res.push((wstart, i));
                in_word = false;
            }
            proof {
                assert(words(t2) == w);
                assert forall|k: int| 0 <= k < res@.len() implies start <= res@[k].0 <= res@[k].1
                    <= end && chars@.subrange(#[trigger] res@[k].0 as int, res@[k].1 as int)
                    == words(t2)[k] by {}
            }
        } else {
            if in_word {
                proof {
                    assert(words(t2) == w.update(w.len() - 1, w.last().push(c)));
                    assert(chars@.subrange(wstart as int, i + 1) =~= chars@.subrange(
                        wstart as int,
                        i as int,
                    ).push(c));
                    assert forall|k: int| 0 <= k < res@.len() implies start <= res@[k].0
                        <= res@[k].1 <= end && chars@.subrange(
                        #[trigger] res@[k].0 as int,
                        res@[k].1 as int,
                    ) == words(t2)[k] by {
                        assert(words(t2)[k] == w[k]);
                    }
                }
            } else {
                wstart = i;
                in_word = true;
                proof {
                    assert(words(t2) == w.push(seq![c]));
                    assert(chars@.subrange(wstart as int, i + 1) =~= seq![c]);
                    assert forall|k: int| 0 <= k < res@.len() implies start <= res@[k].0
                        <= res@[k].1 <= end && chars@.subrange(
                        #[trigger] res@[k].0 as int,
                        res@[k].1 as int,
                    ) == words(t2)[k] by {
                        assert(words(t2)[k] == w[k]);
                    }
                }
            }
        }
        i = i + 1;
    }
    if in_word {
        res.push((wstart, end));
    }
    res
}


/// The character range of `trim(chars[start..end])`.
pub fn trim_bounds(chars: &Vec<char>, start: usize, end: usize) -> (res: (usize, usize))
    requires
        start <= end <= chars@.len(),
    ensures
        start <= res.0 <= res.1 <= end,
        chars@.subrange(res.0 as int, res.1 as int) == trim(
            chars@.subrange(start as int, end as int),
        ),
{
    let mut a: usize = start;
    while a < end && is_whitespace_char(chars[a])
        invariant
            start <= a <= end <= chars@.len(),
            trim_start(chars@.subrange(start as int, end as int)) == trim_start(
                chars@.subrange(a as int, end as int),
            ),
        decreases end - a,
    {
        proof {
            assert(chars@.subrange(a as int, end as int).drop_first() =~= chars@.subrange(
                a + 1,
                end as int,
            ));
        }
        a = a + 1;
    }
    proof {
        if a == end {
            assert(chars@.subrange(a as int, end as int) =~= Seq::<char>::empty());
        }
    }
    let mut b: usize = end;
    while b > a && is_whitespace_char(chars[b - 1])
        invariant
            start <= a <= b <= end <= chars@.len(),
            trim(chars@.subrange(start as int, end as int)) == trim_end(
                chars@.subrange(a as int, b as int),
            ),
        decreases b - a,
    {
        proof {
            assert(chars@.subrange(a as int, b as int).drop_last() =~= chars@.subrange(
                a as int,
                b - 1,
            ));
        }
        b = b - 1;
    }
    (a, b)
}


/// Every word is non-empty and holds no whitespace.
pub proof fn lemma_words_are_runs(s: Seq<char>)
    ensures
        forall|i: int|
            0 <= i < words(s).len() ==> #[trigger] words(s)[i].len() > 0 && forall|j: int|
                0 <= j < words(s)[i].len() ==> !is_white_space(#[trigger] words(s)[i][j]),
    decreases s.len(),
{
    if s.len() > 0 {
        lemma_words_are_runs(s.drop_last());
        lemma_words_last_nonempty(s.drop_last());
        let w = words(s.drop_last());
        if !is_white_space(s.last()) && s.len() >= 2 && !is_white_space(s[s.len() - 2]) {
            assert(s.drop_last().last() == s[s.len() - 2]);
            let last = w.last().push(s.last());
            assert forall|j: int| 0 <= j < last.len() implies !is_white_space(#[trigger] last[j]) by {
                if j < w.last().len() {
                    assert(w[w.len() - 1][j] == last[j]);
                }
            }
        }
    }
}

/// A non-empty text without whitespace is a single word.
pub proof fn lemma_one_word(s: Seq<char>)
    requires
        s.len() > 0,
        forall|j: int| 0 <= j < s.len() ==> !is_white_space(#[trigger] s[j]),
    ensures
        words(s) == seq![s],
    decreases s.len(),
{
    let w = words(s.drop_last());
    assert(!is_white_space(s.last()));
    if s.len() == 1 {
        assert(w == Seq::<Seq<char>>::empty());
        assert(words(s) == w.push(seq![s.last()]));
        assert(seq![s.last()] =~= s);
        assert(w.push(seq![s.last()]) =~= seq![s]);
    } else {
        lemma_one_word(s.drop_last());
        assert(!is_white_space(s[s.len() - 2]));
        assert(words(s) == w.update(w.len() - 1, w.last().push(s.last())));
        assert(s.drop_last().push(s.last()) =~= s);
        assert(seq![s.drop_last()].update(0, s.drop_last().push(s.last())) =~= seq![s]);
    }
}

/// A whitespace character separates words: the words of `a`, a whitespace
/// character and `b` are the words of `a` followed by the words of `b`.
pub proof fn lemma_words_split_at_space(a: Seq<char>, c: char, b: Seq<char>)
    requires
        is_white_space(c),
    ensures
        words(a.push(c) + b) == words(a) + words(b),
    decreases b.len(),
{
    let s = a.push(c) + b;
    if b.len() == 0 {
        assert(s =~= a.push(c));
        assert(s.drop_last() =~= a);
        assert(words(a) + words(b) =~= words(a));
    } else {
        let b0 = b.drop_last();
        let x = b.last();
        lemma_words_split_at_space(a, c, b0);
        assert(s.drop_last() =~= a.push(c) + b0);
        assert(s.last() == x);
        let wa = words(a);
        let wb0 = words(b0);
        if is_white_space(x) {
        } else if b.len() >= 2 && !is_white_space(b[b.len() - 2]) {
            assert(s[s.len() - 2] == b[b.len() - 2]);
            assert(b0.last() == b[b.len() - 2]);
            lemma_words_last_nonempty(b0);
            assert((wa + wb0).update(wa.len() + wb0.len() - 1, (wa + wb0).last().push(x)) =~= wa
                + wb0.update(wb0.len() - 1, wb0.last().push(x)));
        } else {
            if b.len() >= 2 {
                assert(s[s.len() - 2] == b[b.len() - 2]);
            } else {
                assert(s[s.len() - 2] == c);
            }
            assert((wa + wb0).push(seq![x]) =~= wa + wb0.push(seq![x]));
        }
    }
}

/// The trimmed text neither starts nor ends with whitespace.
pub proof fn lemma_trim_has_no_outer_space(s: Seq<char>)
    ensures
        trim(s).len() > 0 ==> !is_white_space(trim(s)[0]) && !is_white_space(trim(s).last()),
{
    lemma_trim_start(s);
    lemma_trim_end(trim_start(s));
}

proof fn lemma_trim_start(s: Seq<char>)
    ensures
        trim_start(s).len() > 0 ==> !is_white_space(trim_start(s)[0]),
    decreases s.len(),
{
    if s.len() > 0 && is_white_space(s[0]) {
        lemma_trim_start(s.drop_first());
    }
}

proof fn lemma_trim_end(s: Seq<char>)
    ensures
        trim_end(s).len() > 0 ==> !is_white_space(trim_end(s).last()),
        trim_end(s).len() > 0 && s.len() > 0 ==> trim_end(s)[0] == s[0],
    decreases s.len(),
{
    if s.len() > 0 && is_white_space(s.last()) {
        lemma_trim_end(s.drop_last());
    }
}

/// Trimming keeps the part of `s` between its leading and its trailing
/// whitespace: `trim(s)` is `s[a..b]`, every character before `a` and from `b`
/// on is whitespace, and (see `lemma_trim_has_no_outer_space`) the part kept
/// neither starts nor ends with whitespace.
pub proof fn lemma_trim_keeps_inner_text(s: Seq<char>)
    ensures
        exists|a: int, b: int|
            0 <= a <= b <= s.len() && trim(s) == s.subrange(a, b) && (forall|j: int|
                0 <= j < a ==> is_white_space(#[trigger] s[j])) && (forall|j: int|
                b <= j < s.len() ==> is_white_space(#[trigger] s[j])),
{
    let a = lemma_trim_start_drops(s);
    let t = trim_start(s);
    let b = lemma_trim_end_drops(t);
    assert(trim(s) == s.subrange(a, a + b));
    assert forall|j: int| a + b <= j < s.len() implies is_white_space(#[trigger] s[j]) by {
        assert(s[j] == t[j - a]);
    }
}

proof fn lemma_trim_start_drops(s: Seq<char>) -> (a: int)
    ensures
        0 <= a <= s.len(),
        trim_start(s) == s.subrange(a, s.len() as int),
        forall|j: int| 0 <= j < a ==> is_white_space(#[trigger] s[j]),
    decreases s.len(),
{
    if s.len() > 0 && is_white_space(s[0]) {
        let a0 = lemma_trim_start_drops(s.drop_first());
        assert(s.drop_first().subrange(a0, s.len() - 1) =~= s.subrange(a0 + 1, s.len() as int));
        assert forall|j: int| 0 <= j < a0 + 1 implies is_white_space(#[trigger] s[j]) by {
            if j > 0 {
                assert(s[j] == s.drop_first()[j - 1]);
            }
        }
        a0 + 1
    } else {
        assert(s.subrange(0, s.len() as int) =~= s);
        0
    }
}

proof fn lemma_trim_end_drops(s: Seq<char>) -> (b: int)
    ensures
        0 <= b <= s.len(),
        trim_end(s) == s.subrange(0, b),
        forall|j: int| b <= j < s.len() ==> is_white_space(#[trigger] s[j]),
    decreases s.len(),
{
    if s.len() > 0 && is_white_space(s.last()) {
        let b0 = lemma_trim_end_drops(s.drop_last());
        assert(s.drop_last().subrange(0, b0) =~= s.subrange(0, b0));
        assert forall|j: int| b0 <= j < s.len() implies is_white_space(#[trigger] s[j]) by {
            if j < s.len() - 1 {
                assert(s[j] == s.drop_last()[j]);
            }
        }
        b0
    } else {
        assert(s.subrange(0, s.len() as int) =~= s);
        s.len() as int
    }
}

} // verus!
