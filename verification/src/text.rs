//! Whitespace, words and keywords of typed chat commands.
use vstd::prelude::*;

verus! {

/// The Unicode `White_Space` property, which `char::is_whitespace` reports
/// and `str::split_whitespace` splits on.
pub open spec fn is_white_space(c: char) -> bool {
    let v = c as u32;
    ||| 0x09 <= v <= 0x0D
    ||| v == 0x20
    ||| v == 0x85
    ||| v == 0xA0
    ||| v == 0x1680
    ||| 0x2000 <= v <= 0x200A
    ||| v == 0x2028
    ||| v == 0x2029
    ||| v == 0x202F
    ||| v == 0x205F
    ||| v == 0x3000
}

/// Whether `c` is a whitespace character.
pub fn is_whitespace(c: char) -> (r: bool)
    ensures
        r == is_white_space(c),
{
    let v = c as u32;
    (0x09 <= v && v <= 0x0D) || v == 0x20 || v == 0x85 || v == 0xA0 || v == 0x1680 || (0x2000
        <= v && v <= 0x200A) || v == 0x2028 || v == 0x2029 || v == 0x202F || v == 0x205F || v
        == 0x3000
}

/// The characters of `s`, in order.
pub fn chars_of(s: &str) -> (cs: Vec<char>)
    ensures
        cs@ == s@,
{
    let mut cs: Vec<char> = Vec::new();
    for c in it: s.chars()
        invariant
            cs@ == it.seq().take(it.index() as int),
    {
        cs.push(c);
    }
    cs
}


/// Character index ranges `[start, end)` of the words of `s`: its maximal runs
/// of characters that are not whitespace, left to right.
pub open spec fn word_spans(s: Seq<char>) -> Seq<(int, int)>
    decreases s.len(),
{
    if s.len() == 0 {
        seq![]
    } else {
        let prev = word_spans(s.drop_last());
        let i = s.len() - 1;
        if is_white_space(s[i]) {
            prev
        } else if i > 0 && !is_white_space(s[i - 1]) {
            prev.update(prev.len() - 1, (prev.last().0, i + 1))
        } else {
            prev.push((i, i + 1))
        }
    }
}

/// The words of `s`, as `str::split_whitespace` yields them.
pub open spec fn words(s: Seq<char>) -> Seq<Seq<char>> {
    word_spans(s).map_values(|p: (int, int)| s.subrange(p.0, p.1))
}

/// The spans of `word_spans` are ordered, non-empty and inside `s`, and the
/// last one reaches the end of `s` when `s` ends in a non-whitespace character.
pub proof fn lemma_word_spans_wf(s: Seq<char>)
    ensures
        forall|k: int|
            0 <= k < word_spans(s).len() ==> 0 <= #[trigger] word_spans(s)[k].0 < word_spans(
                s,
            )[k].1 <= s.len(),
        forall|k: int|
            0 <= k < word_spans(s).len() - 1 ==> #[trigger] word_spans(s)[k].1 < word_spans(s)[k
                + 1].0,
        s.len() > 0 && !is_white_space(s.last()) ==> word_spans(s).len() > 0 && word_spans(
            s,
        ).last().1 == s.len(),
        s.len() > 0 && is_white_space(s.last()) ==> (word_spans(s).len() > 0 ==> word_spans(
            s,
        ).last().1 < s.len()),
    decreases s.len(),
{
    if s.len() > 0 {
        let t = s.drop_last();
        lemma_word_spans_wf(t);
        let prev = word_spans(t);
        let i = s.len() - 1;
        if i > 0 {
            assert(t.last() == s[i - 1]);
        }
        let cur = word_spans(s);
        if is_white_space(s[i]) {
            assert(cur == prev);
        } else if i > 0 && !is_white_space(s[i - 1]) {
            assert(prev.last().1 == i);
            assert forall|k: int| 0 <= k < cur.len() - 1 implies #[trigger] cur[k].1 < cur[k
                + 1].0 by {
                assert(cur[k] == prev[k]);
                if k + 1 < cur.len() - 1 {
                    assert(cur[k + 1] == prev[k + 1]);
                }
            }
        } else {
            assert forall|k: int| 0 <= k < cur.len() - 1 implies #[trigger] cur[k].1 < cur[k
                + 1].0 by {
                assert(cur[k] == prev[k]);
                if k + 1 < cur.len() - 1 {
                    assert(cur[k + 1] == prev[k + 1]);
                }
            }
        }
    }
}


/// Spans held as machine indices, seen as integer ranges.
pub open spec fn spans_view(v: Seq<(usize, usize)>) -> Seq<(int, int)> {
    v.map_values(|p: (usize, usize)| (p.0 as int, p.1 as int))
}

/// The character ranges of the words of `cs`.
fn word_spans_of(cs: &Vec<char>) -> (spans: Vec<(usize, usize)>)
    ensures
        spans_view(spans@) == word_spans(cs@),
{
    let n = cs.len();
    let mut spans: Vec<(usize, usize)> = Vec::new();
    let mut i: usize = 0;
    while i < n
        invariant
            i <= n,
            n == cs@.len(),
            spans_view(spans@) == word_spans(cs@.take(i as int)),
        decreases n - i,
    {
        proof {
            assert(cs@.take(i + 1).drop_last() == cs@.take(i as int));
            lemma_word_spans_wf(cs@.take(i as int));
            if i > 0 {
                assert(cs@.take(i as int).last() == cs@[i - 1]);
            }
        }
        let c = cs[i];
        if is_whitespace(c) {
        } else if i > 0 && !is_whitespace(cs[i - 1]) {
            let last = spans.len() - 1;
            let start = spans[last].0;
            spans.set(last, (start, i + 1));
        } else {
            spans.push((i, i + 1));
        }
        proof {
            assert(spans_view(spans@) =~= word_spans(cs@.take(i + 1)));
        }
        i += 1;
    }
    assert(cs@.take(n as int) == cs@);
    spans
}

/// The words of `s`, split at whitespace, with no empty word.
pub fn split_words(s: &str) -> (ws: Vec<String>)
    ensures
        ws.deep_view() == words(s@),
{
    let cs = chars_of(s);
    let spans = word_spans_of(&cs);
    proof {
        lemma_word_spans_wf(s@);
    }
    let ghost sp = word_spans(s@);
    let mut ws: Vec<String> = Vec::new();
    let mut k: usize = 0;
    while k < spans.len()
        invariant
            k <= spans@.len(),
            spans_view(spans@) == sp,
            sp == word_spans(s@),
            ws@.len() == k,
            forall|j: int| 0 <= j < k ==> #[trigger] ws@[j]@ == s@.subrange(sp[j].0, sp[j].1),
            forall|j: int| 0 <= j < sp.len() ==> 0 <= #[trigger] sp[j].0 < sp[j].1 <= s@.len(),
        decreases spans@.len() - k,
    {
        let (a, b) = spans[k];
        assert(sp[k as int] == (a as int, b as int));
        let w = String::from_str(s.substring_char(a, b));
        ws.push(w);
        k += 1;
    }
    assert(ws.deep_view() =~= words(s@));
    ws
}


/// The words of `ws` joined with single spaces, as `[&str]::join(" ")` does.
pub open spec fn join_words(ws: Seq<Seq<char>>) -> Seq<char>
    decreases ws.len(),
{
    if ws.len() == 0 {
        seq![]
    } else if ws.len() == 1 {
        ws[0]
    } else {
        join_words(ws.drop_last()) + seq![' '] + ws.last()
    }
}

/// The words of `ws` from index `from` on, joined with single spaces.
pub fn join_from(ws: &Vec<String>, from: usize) -> (r: String)
    requires
        from <= ws@.len(),
    ensures
        r@ == join_words(ws.deep_view().skip(from as int)),
{
    let ghost dv = ws.deep_view();
    let mut r = String::new();
    let mut k = from;
    proof {
        reveal_strlit(" ");
        assert(dv.subrange(from as int, from as int) =~= Seq::<Seq<char>>::empty());
    }
    while k < ws.len()
        invariant
            from <= k <= ws@.len(),
            dv == ws.deep_view(),
            r@ == join_words(dv.subrange(from as int, k as int)),
        decreases ws@.len() - k,
    {
        let ghost before = dv.subrange(from as int, k as int);
        proof {
            assert(dv.subrange(from as int, k + 1).drop_last() =~= before);
            assert(dv[k as int] == ws@[k as int]@);
        }
        if k > from {
            proof {
                reveal_strlit(" ");
            }
            r.append(" ");
            assert(dv.subrange(from as int, k + 1).last() == dv[k as int]);
        } else {
            assert(dv.subrange(from as int, k + 1) =~= seq![dv[k as int]]);
        }
        r.append(ws[k].as_str());
        k += 1;
    }
    assert(dv.subrange(from as int, ws@.len() as int) =~= dv.skip(from as int));
    r
}

/// Code of `c` after ASCII lowercasing.
pub open spec fn ascii_lower_code(c: char) -> u32 {
    if 0x41 <= c as u32 <= 0x5A {
        (c as u32 + 32) as u32
    } else {
        c as u32
    }
}

/// `w.to_lowercase() == kw` for a keyword `kw` made of lowercase ASCII
/// letters other than `k`: no character but a letter and its ASCII capital
/// lowercases to such a letter, and none lowercases to more than one of them.
pub open spec fn lowercases_to(w: Seq<char>, kw: Seq<char>) -> bool {
    &&& w.len() == kw.len()
    &&& forall|i: int| 0 <= i < w.len() ==> ascii_lower_code(#[trigger] w[i]) == kw[i] as u32
}

/// Whether the word `w` lowercases to the keyword `kw`.
pub fn lowercases_to_keyword(w: &String, kw: &str) -> (r: bool)
    ensures
        r == lowercases_to(w@, kw@),
{
    let wc = chars_of(w.as_str());
    let kc = chars_of(kw);
    if wc.len() != kc.len() {
        return false;
    }
    let mut i: usize = 0;
    while i < wc.len()
        invariant
            i <= wc@.len(),
            wc@ == w@,
            kc@ == kw@,
            wc@.len() == kc@.len(),
            forall|j: int| 0 <= j < i ==> ascii_lower_code(#[trigger] wc@[j]) == kc@[j] as u32,
        decreases wc@.len() - i,
    {
        let v = wc[i] as u32;
        let lower = if 0x41 <= v && v <= 0x5A {
            v + 32
        } else {
            v
        };
        if lower != kc[i] as u32 {
            return false;
        }
        i += 1;
    }
    true
}

} // verus!
