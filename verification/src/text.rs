//! Whitespace-delimited words over Unicode text: trimming, splitting into
//! words, and cutting a text down to a word budget.

use vstd::prelude::*;
use vstd::string::StrSliceExecFns;
use vstd::string::StringExecFns;

verus! {

/// Whether `c` has the Unicode `White_Space` property.
pub open spec fn is_space(c: char) -> bool {
    let u = c as u32;
    ||| 0x09 <= u <= 0x0D
    ||| u == 0x20
    ||| u == 0x85
    ||| u == 0xA0
    ||| u == 0x1680
    ||| 0x2000 <= u <= 0x200A
    ||| u == 0x2028
    ||| u == 0x2029
    ||| u == 0x202F
    ||| u == 0x205F
    ||| u == 0x3000
}

/// A word is a non-empty run of characters none of which is whitespace.
pub open spec fn is_word(w: Seq<char>) -> bool {
    &&& w.len() > 0
    &&& forall|i: int| 0 <= i < w.len() ==> !is_space(#[trigger] w[i])
}

/// The words of `s`: its maximal runs of non-whitespace characters, in
/// order. Reading `s` left to right, a whitespace character adds nothing, a
/// character that follows a non-whitespace character extends the last word,
/// and any other character starts a new word.
pub open spec fn words(s: Seq<char>) -> Seq<Seq<char>>
    decreases s.len(),
{
    if s.len() == 0 {
        Seq::empty()
    } else {
        let before = words(s.drop_last());
        if is_space(s.last()) {
            before
        } else if s.len() >= 2 && !is_space(s[s.len() - 2]) {
            before.drop_last().push(before.last().push(s.last()))
        } else {
            before.push(seq![s.last()])
        }
    }
}

/// `ws` written out with one space between neighbours.
pub open spec fn join_words(ws: Seq<Seq<char>>) -> Seq<char>
    decreases ws.len(),
{
    if ws.len() == 0 {
        Seq::empty()
    } else if ws.len() == 1 {
        ws[0]
    } else {
        join_words(ws.drop_last()) + seq![' '] + ws.last()
    }
}

/// `s` held to a budget of `max_words` words: `s` itself when it has no more
/// words than that, and otherwise its first `max_words` words joined by
/// single spaces.
pub open spec fn truncated(s: Seq<char>, max_words: nat) -> Seq<char> {
    if words(s).len() <= max_words {
        s
    } else {
        join_words(words(s).take(max_words as int))
    }
}

/// `s` without its leading whitespace.
pub open spec fn trim_start(s: Seq<char>) -> Seq<char>
    decreases s.len(),
{
    if s.len() > 0 && is_space(s[0]) {
        trim_start(s.drop_first())
    } else {
        s
    }
}

/// `s` without its trailing whitespace.
pub open spec fn trim_end(s: Seq<char>) -> Seq<char>
    decreases s.len(),
{
    if s.len() > 0 && is_space(s.last()) {
        trim_end(s.drop_last())
    } else {
        s
    }
}

/// `s` without its leading and trailing whitespace.
pub open spec fn trimmed(s: Seq<char>) -> Seq<char> {
    trim_end(trim_start(s))
}

/// Where the words of `s` stand: for each word, in order, the position of
/// its first character and the position after its last. Reading `s` left to
/// right, a whitespace character adds nothing, a character that follows a
/// non-whitespace character moves the end of the last span past it, and any
/// other character opens a new span.
pub open spec fn word_positions(s: Seq<char>) -> Seq<(int, int)>
    decreases s.len(),
{
    if s.len() == 0 {
        Seq::empty()
    } else {
        let before = word_positions(s.drop_last());
        let end = s.len() as int;
        if is_space(s.last()) {
            before
        } else if s.len() >= 2 && !is_space(s[s.len() - 2]) {
            before.drop_last().push((before.last().0, end))
        } else {
            before.push((end - 1, end))
        }
    }
}

/// Whether position `i` lies inside one of `spans`.
pub open spec fn covered(spans: Seq<(int, int)>, i: int) -> bool {
    exists|k: int| 0 <= k < spans.len() && (#[trigger] spans[k]).0 <= i < spans[k].1
}

/// `spans` splits `s` into words and gaps: each span is non-empty and lies
/// within the text, an earlier span ends at least one character before a
/// later one begins, and a character is whitespace exactly when no span
/// covers it.
pub open spec fn splits(s: Seq<char>, spans: Seq<(int, int)>) -> bool {
    &&& forall|k: int|
        0 <= k < spans.len() ==> 0 <= (#[trigger] spans[k]).0 < spans[k].1 <= s.len()
    &&& forall|j: int, k: int|
        #![trigger spans[j], spans[k]]
        0 <= j < k < spans.len() ==> spans[j].1 < spans[k].0
    &&& forall|i: int| 0 <= i < s.len() ==> (!is_space(#[trigger] s[i]) <==> covered(spans, i))
}

/// Spans of machine integers as spans of mathematical ones.
pub open spec fn spans_view(spans: Seq<(usize, usize)>) -> Seq<(int, int)> {
    spans.map_values(|p: (usize, usize)| (p.0 as int, p.1 as int))
}

/// Every element of `words(s)` is a word, and a text that ends in a
/// non-whitespace character has at least one.
pub proof fn lemma_words_are_words(s: Seq<char>)
    ensures
        forall|k: int| 0 <= k < words(s).len() ==> is_word(#[trigger] words(s)[k]),
        s.len() > 0 && !is_space(s.last()) ==> words(s).len() > 0,
    decreases s.len(),
{
    if s.len() > 0 {
        let p = s.drop_last();
        lemma_words_are_words(p);
        if !is_space(s.last()) && s.len() >= 2 && !is_space(s[s.len() - 2]) {
            assert(p.last() == s[s.len() - 2]);
            let before = words(p);
            let grown = before.last().push(s.last());
            assert(is_word(before.last()));
            assert(is_word(grown));
            assert forall|k: int| 0 <= k < words(s).len() implies is_word(
                #[trigger] words(s)[k],
            ) by {
                if k < before.len() - 1 {
                    assert(words(s)[k] == before[k]);
                }
            }
        } else if !is_space(s.last()) {
            assert(is_word(seq![s.last()]));
        }
    }
}

/// The word positions split a text into words and gaps, with one span per
/// word, and each span holds exactly its word. A text that ends in a
/// non-whitespace character ends with its last span.
pub proof fn lemma_word_positions(s: Seq<char>)
    ensures
        splits(s, word_positions(s)),
        word_positions(s).len() == words(s).len(),
        forall|k: int|
            0 <= k < word_positions(s).len() ==> words(s)[k] == s.subrange(
                (#[trigger] word_positions(s)[k]).0,
                word_positions(s)[k].1,
            ),
        s.len() > 0 && !is_space(s.last()) ==> word_positions(s).len() > 0 && word_positions(
            s,
        ).last().1 == s.len(),
    decreases s.len(),
{
    if s.len() > 0 {
        let pre = s.drop_last();
        let n = pre.len() as int;
        let q = word_positions(pre);
        let p = word_positions(s);
        lemma_word_positions(pre);
        lemma_words_are_words(pre);
        assert forall|k: int| 0 <= k < q.len() implies pre.subrange((#[trigger] q[k]).0, q[k].1)
            =~= s.subrange(q[k].0, q[k].1) by {}
        if n > 0 {
            assert(pre.last() == s[s.len() - 2]);
        }
        if is_space(s.last()) {
            assert forall|i: int| 0 <= i < s.len() implies (!is_space(#[trigger] s[i])
                <==> covered(p, i)) by {
                if i < n {
                    assert(s[i] == pre[i]);
                } else if covered(p, i) {
                    let k = choose|k: int| 0 <= k < p.len() && (#[trigger] p[k]).0 <= i < p[k].1;
                    assert(q[k].1 <= n);
                }
            }
        } else if s.len() >= 2 && !is_space(s[s.len() - 2]) {
            let last = q.len() - 1;
            assert(q.len() > 0 && q[last].1 == n);
            assert(p.len() == q.len());
            assert(p[last] == (q[last].0, n + 1));
            assert(s.subrange(q[last].0, n + 1) =~= pre.subrange(q[last].0, n).push(s.last()));
            assert forall|k: int| 0 <= k < p.len() implies {
                &&& 0 <= (#[trigger] p[k]).0 < p[k].1 <= s.len()
                &&& words(s)[k] == s.subrange(p[k].0, p[k].1)
            } by {
                if k < last {
                    assert(p[k] == q[k]);
                    assert(words(s)[k] == words(pre)[k]);
                }
            }
            assert forall|j: int, k: int|
                #![trigger p[j], p[k]]
                0 <= j < k < p.len() implies p[j].1 < p[k].0 by {
                assert(p[j] == q[j]);
                assert(p[k].0 == q[k].0);
            }
            assert forall|i: int| 0 <= i < s.len() implies (!is_space(#[trigger] s[i])
                <==> covered(p, i)) by {
                if i < n {
                    assert(s[i] == pre[i]);
                    if covered(q, i) {
                        let k = choose|k: int|
                            0 <= k < q.len() && (#[trigger] q[k]).0 <= i < q[k].1;
                        assert(p[k].0 <= i < p[k].1);
                    }
                    if covered(p, i) {
                        let k = choose|k: int|
                            0 <= k < p.len() && (#[trigger] p[k]).0 <= i < p[k].1;
                        assert(q[k].0 <= i < q[k].1);
                    }
                } else {
                    assert(p[last].0 <= i < p[last].1);
                }
            }
        } else {
            assert(p == q.push((n, n + 1)));
            assert(s.subrange(n, n + 1) =~= seq![s.last()]);
            if q.len() > 0 {
                assert(q.last().1 < n) by {
                    assert(n > 0);
                    assert(is_space(pre.last()));
                    if q.last().1 == n {
                        assert(q[q.len() - 1].0 <= n - 1 < q[q.len() - 1].1);
                        assert(covered(q, n - 1));
                    }
                }
            }
            assert forall|k: int| 0 <= k < p.len() implies {
                &&& 0 <= (#[trigger] p[k]).0 < p[k].1 <= s.len()
                &&& words(s)[k] == s.subrange(p[k].0, p[k].1)
            } by {
                if k < q.len() {
                    assert(p[k] == q[k]);
                    assert(words(s)[k] == words(pre)[k]);
                }
            }
            assert forall|j: int, k: int|
                #![trigger p[j], p[k]]
                0 <= j < k < p.len() implies p[j].1 < p[k].0 by {
                assert(p[j] == q[j]);
                if k < q.len() {
                    assert(p[k] == q[k]);
                } else if j < q.len() - 1 {
                    assert(q[j].1 < q[q.len() - 1].0);
                }
            }
            assert forall|i: int| 0 <= i < s.len() implies (!is_space(#[trigger] s[i])
                <==> covered(p, i)) by {
                if i < n {
                    assert(s[i] == pre[i]);
                    if covered(q, i) {
                        let k = choose|k: int|
                            0 <= k < q.len() && (#[trigger] q[k]).0 <= i < q[k].1;
                        assert(p[k].0 <= i < p[k].1);
                    }
                    if covered(p, i) {
                        let k = choose|k: int|
                            0 <= k < p.len() && (#[trigger] p[k]).0 <= i < p[k].1;
                        assert(q[k].0 <= i < q[k].1);
                    }
                } else {
                    assert(p[q.len() as int].0 <= i < p[q.len() as int].1);
                }
            }
        }
    }
}

/// A span that covers the last character of a text is the last span, and it
/// ends where the text ends.
proof fn lemma_span_at_end(s: Seq<char>, spans: Seq<(int, int)>, k: int)
    requires
        splits(s, spans),
        s.len() > 0,
        0 <= k < spans.len(),
        spans[k].0 <= s.len() - 1 < spans[k].1,
    ensures
        k == spans.len() - 1,
        spans[k].1 == s.len(),
{
    if k < spans.len() - 1 {
        assert(spans[k].1 < spans[k + 1].0);
        assert(spans[k + 1].0 < spans[k + 1].1 <= s.len());
    }
}

/// There is only one way to split a text into words and gaps: whatever
/// splits it is its word positions. So the words of a text are exactly its
/// maximal runs of non-whitespace characters, in order.
pub proof fn lemma_split_is_unique(s: Seq<char>, spans: Seq<(int, int)>)
    requires
        splits(s, spans),
    ensures
        spans == word_positions(s),
    decreases s.len(),
{
    if s.len() == 0 {
        if spans.len() > 0 {
            assert(spans[0].0 < spans[0].1);
        }
        assert(spans =~= Seq::empty());
    } else {
        let pre = s.drop_last();
        let n = pre.len() as int;
        if is_space(s.last()) {
            assert forall|k: int| 0 <= k < spans.len() implies (#[trigger] spans[k]).1 <= n by {
                if spans[k].1 > n {
                    assert(spans[k].0 <= n < spans[k].1);
                    assert(covered(spans, n));
                }
            }
            assert forall|i: int| 0 <= i < pre.len() implies (!is_space(#[trigger] pre[i])
                <==> covered(spans, i)) by {
                assert(pre[i] == s[i]);
            }
            assert(splits(pre, spans));
            lemma_split_is_unique(pre, spans);
        } else {
            assert(covered(spans, n));
            let last = choose|k: int|
                0 <= k < spans.len() && (#[trigger] spans[k]).0 <= n < spans[k].1;
            lemma_span_at_end(s, spans, last);
            let init = spans.drop_last();
            if s.len() >= 2 && !is_space(s[s.len() - 2]) {
                assert(covered(spans, n - 1));
                let prev = choose|k: int|
                    0 <= k < spans.len() && (#[trigger] spans[k]).0 <= n - 1 < spans[k].1;
                if prev != last {
                    assert(spans[prev].1 < spans[last].0);
                }
                assert(spans[last].0 <= n - 1);
                let shorter = init.push((spans[last].0, n));
                assert forall|j: int, k: int|
                    #![trigger shorter[j], shorter[k]]
                    0 <= j < k < shorter.len() implies shorter[j].1 < shorter[k].0 by {
                    assert(shorter[j] == spans[j]);
                    assert(shorter[k].0 == spans[k].0);
                }
                assert forall|j: int| 0 <= j < shorter.len() implies 0 <= (#[trigger] shorter[j]).0
                    < shorter[j].1 <= pre.len() by {
                    if j < last {
                        assert(shorter[j] == spans[j]);
                        assert(spans[j].1 < spans[last].0);
                    }
                }
                assert forall|i: int| 0 <= i < pre.len() implies (!is_space(#[trigger] pre[i])
                    <==> covered(shorter, i)) by {
                    assert(pre[i] == s[i]);
                    if covered(spans, i) {
                        let j = choose|j: int|
                            0 <= j < spans.len() && (#[trigger] spans[j]).0 <= i < spans[j].1;
                        assert(shorter[j].0 <= i < shorter[j].1);
                    }
                    if covered(shorter, i) {
                        let j = choose|j: int|
                            0 <= j < shorter.len() && (#[trigger] shorter[j]).0 <= i < shorter[j].1;
                        assert(spans[j].0 <= i < spans[j].1);
                    }
                }
                assert(splits(pre, shorter));
                lemma_split_is_unique(pre, shorter);
                assert(shorter.drop_last() =~= init);
                assert(init.push((spans[last].0, n + 1)) =~= spans);
            } else {
                if spans[last].0 < n {
                    assert(spans[last].0 <= n - 1 < spans[last].1);
                    assert(covered(spans, n - 1));
                    assert(!is_space(s[n - 1]));
                }
                assert(spans[last] == (n, n + 1));
                assert forall|j: int| 0 <= j < init.len() implies 0 <= (#[trigger] init[j]).0
                    < init[j].1 <= pre.len() by {
                    assert(init[j] == spans[j]);
                    assert(spans[j].1 < spans[last].0);
                }
                assert forall|j: int, k: int|
                    #![trigger init[j], init[k]]
                    0 <= j < k < init.len() implies init[j].1 < init[k].0 by {
                    assert(init[j] == spans[j]);
                    assert(init[k] == spans[k]);
                }
                assert forall|i: int| 0 <= i < pre.len() implies (!is_space(#[trigger] pre[i])
                    <==> covered(init, i)) by {
                    assert(pre[i] == s[i]);
                    if covered(spans, i) {
                        let j = choose|j: int|
                            0 <= j < spans.len() && (#[trigger] spans[j]).0 <= i < spans[j].1;
                        assert(init[j].0 <= i < init[j].1);
                    }
                    if covered(init, i) {
                        let j = choose|j: int|
                            0 <= j < init.len() && (#[trigger] init[j]).0 <= i < init[j].1;
                        assert(spans[j].0 <= i < spans[j].1);
                    }
                }
                assert(splits(pre, init));
                lemma_split_is_unique(pre, init);
                assert(init.push((n, n + 1)) =~= spans);
            }
        }
    }
}

/// A word written after a text that is empty or ends in whitespace becomes
/// that text's next word.
pub proof fn lemma_words_after_gap(x: Seq<char>, w: Seq<char>)
    requires
        is_word(w),
        x.len() == 0 || is_space(x.last()),
    ensures
        words(x + w) == words(x).push(w),
    decreases w.len(),
{
    let s = x + w;
    let c = w.last();
    assert(s.last() == c);
    if w.len() == 1 {
        assert(s.drop_last() =~= x);
        assert(w =~= seq![c]);
        if s.len() >= 2 {
            assert(s[s.len() - 2] == x.last());
        }
    } else {
        let v = w.drop_last();
        assert(is_word(v)) by {
            assert forall|i: int| 0 <= i < v.len() implies !is_space(#[trigger] v[i]) by {
                assert(v[i] == w[i]);
            }
        }
        lemma_words_after_gap(x, v);
        assert(s.drop_last() =~= x + v);
        assert(s[s.len() - 2] == w[w.len() - 2]);
        assert(v.push(c) =~= w);
        assert(words(x).push(v).drop_last() =~= words(x));
    }
}

/// Splitting distributes over concatenation at a gap: where one text ends
/// in whitespace, or the next begins with it, or either is empty, the words
/// of the two together are the words of the first followed by the words of
/// the second.
pub proof fn lemma_words_concat(a: Seq<char>, b: Seq<char>)
    requires
        a.len() == 0 || b.len() == 0 || is_space(a.last()) || is_space(b.first()),
    ensures
        words(a + b) == words(a) + words(b),
    decreases b.len(),
{
    if b.len() == 0 {
        assert(a + b =~= a);
        assert(words(a) + words(b) =~= words(a));
    } else if a.len() == 0 {
        assert(a + b =~= b);
        assert(words(a) + words(b) =~= words(b));
    } else {
        let s = a + b;
        let p = b.drop_last();
        assert(s.drop_last() =~= a + p);
        assert(s.last() == b.last());
        if p.len() > 0 {
            assert(p.first() == b.first());
            assert(s[s.len() - 2] == b[b.len() - 2]);
            assert(p.last() == b[b.len() - 2]);
        } else {
            assert(s[s.len() - 2] == a.last());
            assert(a + p =~= a);
        }
        lemma_words_concat(a, p);
        lemma_words_are_words(p);
        if is_space(b.last()) {
        } else if b.len() >= 2 && !is_space(b[b.len() - 2]) {
            let grown = words(p).last().push(b.last());
            assert(words(p).len() > 0);
            assert((words(a) + words(p)).drop_last() =~= words(a) + words(p).drop_last());
            assert((words(a) + words(p)).last() == words(p).last());
            assert((words(a) + words(p).drop_last()).push(grown) =~= words(a) + words(
                p,
            ).drop_last().push(grown));
        } else {
            assert((words(a) + words(p)).push(seq![b.last()]) =~= words(a) + words(p).push(
                seq![b.last()],
            ));
        }
    }
}

/// A text of whitespace alone has no words, and a single word is its own
/// only word.
pub proof fn lemma_words_of_gap_and_word(s: Seq<char>)
    ensures
        (forall|i: int| 0 <= i < s.len() ==> is_space(#[trigger] s[i])) ==> words(s).len() == 0,
        is_word(s) ==> words(s) == seq![s],
    decreases s.len(),
{
    if s.len() > 0 {
        if forall|i: int| 0 <= i < s.len() ==> is_space(#[trigger] s[i]) {
            let p = s.drop_last();
            assert forall|i: int| 0 <= i < p.len() implies is_space(#[trigger] p[i]) by {
                assert(p[i] == s[i]);
            }
            lemma_words_of_gap_and_word(p);
            assert(is_space(s.last()));
        }
        if is_word(s) {
            lemma_words_after_gap(Seq::empty(), s);
            assert(Seq::<char>::empty() + s =~= s);
            assert(Seq::<Seq<char>>::empty().push(s) =~= seq![s]);
        }
    }
}

/// Splitting undoes joining: a list of words, joined by single spaces, has
/// exactly those words.
pub proof fn lemma_words_of_join(ws: Seq<Seq<char>>)
    requires
        forall|k: int| 0 <= k < ws.len() ==> is_word(#[trigger] ws[k]),
    ensures
        words(join_words(ws)) == ws,
    decreases ws.len(),
{
    if ws.len() == 0 {
        assert(ws =~= Seq::empty());
    } else if ws.len() == 1 {
        lemma_words_after_gap(Seq::empty(), ws[0]);
        assert(Seq::<char>::empty() + ws[0] =~= ws[0]);
        assert(Seq::<Seq<char>>::empty().push(ws[0]) =~= ws);
    } else {
        let init = ws.drop_last();
        lemma_words_of_join(init);
        let x = join_words(init) + seq![' '];
        assert(x.drop_last() =~= join_words(init));
        assert(is_space(x.last()));
        assert(words(x) == init);
        lemma_words_after_gap(x, ws.last());
        assert(init.push(ws.last()) =~= ws);
    }
}

/// Holding a text to a word budget keeps its first words, in order, and
/// nothing else: the result has the text's words up to the budget.
pub proof fn lemma_truncated_words(s: Seq<char>, max_words: nat)
    ensures
        words(truncated(s, max_words)) == if words(s).len() <= max_words {
            words(s)
        } else {
            words(s).take(max_words as int)
        },
        words(truncated(s, max_words)).len() <= max_words,
{
    if words(s).len() > max_words {
        lemma_words_are_words(s);
        lemma_words_of_join(words(s).take(max_words as int));
    }
}

/// Holding a text to a word budget twice changes nothing more.
pub proof fn lemma_truncated_idempotent(s: Seq<char>, max_words: nat)
    ensures
        truncated(truncated(s, max_words), max_words) == truncated(s, max_words),
{
    lemma_truncated_words(s, max_words);
}

/// A text with a word in it is still non-empty after it is held to a budget
/// of at least one word.
pub proof fn lemma_truncated_nonempty(s: Seq<char>, max_words: nat)
    requires
        words(s).len() > 0,
        max_words > 0,
    ensures
        truncated(s, max_words).len() > 0,
{
    lemma_truncated_words(s, max_words);
    if truncated(s, max_words).len() == 0 {
        assert(words(truncated(s, max_words)).len() == 0);
    }
}

/// A trimmed text that is not empty begins and ends with a non-whitespace
/// character, so it has at least one word.
pub proof fn lemma_trimmed_has_word(s: Seq<char>)
    requires
        trimmed(s).len() > 0,
    ensures
        !is_space(trimmed(s).first()),
        !is_space(trimmed(s).last()),
        words(trimmed(s)).len() > 0,
{
    let t = trim_start(s);
    lemma_trim_start_edge(s);
    lemma_trim_end_edge(t);
    lemma_words_are_words(trimmed(s));
}

/// What `trim_start` leaves is the text from some position on, and
/// everything before that position is whitespace.
pub proof fn lemma_trim_start_is_suffix(s: Seq<char>)
    ensures
        ({
            let n = s.len() - trim_start(s).len();
            &&& 0 <= n <= s.len()
            &&& trim_start(s) == s.skip(n)
            &&& forall|i: int| 0 <= i < n ==> is_space(#[trigger] s[i])
        }),
    decreases s.len(),
{
    if s.len() > 0 && is_space(s[0]) {
        let rest = s.drop_first();
        lemma_trim_start_is_suffix(rest);
        let n = s.len() - trim_start(s).len();
        assert(rest.skip(n - 1) =~= s.skip(n));
        assert forall|i: int| 0 <= i < n implies is_space(#[trigger] s[i]) by {
            if i > 0 {
                assert(s[i] == rest[i - 1]);
            }
        }
    } else {
        assert(s.skip(0) =~= s);
    }
}

/// What `trim_end` leaves is the text up to some position, and everything
/// from that position on is whitespace.
pub proof fn lemma_trim_end_is_prefix(s: Seq<char>)
    ensures
        ({
            let n = trim_end(s).len() as int;
            &&& 0 <= n <= s.len()
            &&& trim_end(s) == s.take(n)
            &&& forall|i: int| n <= i < s.len() ==> is_space(#[trigger] s[i])
        }),
    decreases s.len(),
{
    if s.len() > 0 && is_space(s.last()) {
        let rest = s.drop_last();
        lemma_trim_end_is_prefix(rest);
        let n = trim_end(s).len() as int;
        assert(rest.take(n) =~= s.take(n));
        assert forall|i: int| n <= i < s.len() implies is_space(#[trigger] s[i]) by {
            if i < s.len() - 1 {
                assert(s[i] == rest[i]);
            }
        }
    } else {
        assert(s.take(s.len() as int) =~= s);
    }
}

/// Trimming takes the middle of a text: what stands before and after the
/// trimmed text is whitespace alone, and the trimmed text, unless it is
/// empty, begins and ends with a character that is not whitespace.
pub proof fn lemma_trimmed_is_middle(s: Seq<char>)
    ensures
        ({
            let from = s.len() - trim_start(s).len();
            let to = from + trimmed(s).len();
            &&& 0 <= from <= to <= s.len()
            &&& trimmed(s) == s.subrange(from, to)
            &&& forall|i: int| 0 <= i < from ==> is_space(#[trigger] s[i])
            &&& forall|i: int| to <= i < s.len() ==> is_space(#[trigger] s[i])
            &&& from < to ==> !is_space(s[from]) && !is_space(s[to - 1])
        }),
{
    let t = trim_start(s);
    let from = s.len() - t.len();
    let to = from + trimmed(s).len();
    lemma_trim_start_is_suffix(s);
    lemma_trim_end_is_prefix(t);
    lemma_trim_start_edge(s);
    lemma_trim_end_edge(t);
    assert(t.take(trimmed(s).len() as int) =~= s.subrange(from, to));
    assert forall|i: int| to <= i < s.len() implies is_space(#[trigger] s[i]) by {
        assert(s[i] == t[i - from]);
    }
    if from < to {
        assert(trimmed(s).first() == s[from]);
        assert(trimmed(s).last() == s[to - 1]);
    }
}

/// Trimming a text does not change its words.
pub proof fn lemma_words_of_trimmed(s: Seq<char>)
    ensures
        words(trimmed(s)) == words(s),
{
    lemma_trimmed_is_middle(s);
    let from = s.len() - trim_start(s).len();
    let to = from + trimmed(s).len();
    let lead = s.take(from);
    let trail = s.skip(to);
    let mid = trimmed(s);
    assert(s =~= lead + (mid + trail));
    assert forall|i: int| 0 <= i < lead.len() implies is_space(#[trigger] lead[i]) by {
        assert(lead[i] == s[i]);
    }
    assert forall|i: int| 0 <= i < trail.len() implies is_space(#[trigger] trail[i]) by {
        assert(trail[i] == s[to + i]);
    }
    lemma_words_of_gap_and_word(lead);
    lemma_words_of_gap_and_word(trail);
    lemma_words_concat(mid, trail);
    lemma_words_concat(lead, mid + trail);
    assert(words(lead) + (words(mid) + words(trail)) =~= words(mid));
}

/// Trimming never makes a text longer.
pub proof fn lemma_trimmed_len(s: Seq<char>)
    ensures
        trimmed(s).len() <= s.len(),
{
    lemma_trim_start_edge(s);
    lemma_trim_end_edge(trim_start(s));
}

/// What `trim_start` leaves is empty or begins with a non-whitespace
/// character, and it is no longer than the text.
pub proof fn lemma_trim_start_edge(s: Seq<char>)
    ensures
        trim_start(s).len() > 0 ==> !is_space(trim_start(s).first()),
        trim_start(s).len() <= s.len(),
    decreases s.len(),
{
    if s.len() > 0 && is_space(s[0]) {
        lemma_trim_start_edge(s.drop_first());
    }
}

/// What `trim_end` leaves is empty or ends with a non-whitespace character,
/// and it begins as the text did.
pub proof fn lemma_trim_end_edge(s: Seq<char>)
    ensures
        trim_end(s).len() > 0 ==> !is_space(trim_end(s).last()),
        trim_end(s).len() > 0 ==> trim_end(s).first() == s.first(),
        trim_end(s).len() <= s.len(),
    decreases s.len(),
{
    if s.len() > 0 && is_space(s.last()) {
        lemma_trim_end_edge(s.drop_last());
    }
}

/// Decides [`is_space`].
pub fn is_whitespace(c: char) -> (r: bool)
    ensures
        r == is_space(c),
{
    let u: u32 = c as u32;
    (0x09 <= u && u <= 0x0D) || u == 0x20 || u == 0x85 || u == 0xA0 || u == 0x1680 || (0x2000 <= u
        && u <= 0x200A) || u == 0x2028 || u == 0x2029 || u == 0x202F || u == 0x205F || u == 0x3000
}

/// The characters of `s`, in order.
pub fn chars_of(s: &str) -> (v: Vec<char>)
    ensures
        v@ == s@,
{
    let mut v: Vec<char> = Vec::new();
    for c in it: s.chars()
        invariant
            it.seq() == s@,
            v@ == it.seq().take(it.index()),
    {
        v.push(c);
    }
    v
}

/// Where the words of `chars` stand: for each word, in order, the position
/// of its first character and the position after its last.
pub fn word_spans(chars: &Vec<char>) -> (spans: Vec<(usize, usize)>)
    ensures
        spans_view(spans@) == word_positions(chars@),
{
    let mut spans: Vec<(usize, usize)> = Vec::new();
    let mut i: usize = 0;
    assert(chars@.take(0) =~= Seq::<char>::empty());
    assert(spans_view(spans@) =~= Seq::<(int, int)>::empty());
    while i < chars.len()
        invariant
            i <= chars.len(),
            spans_view(spans@) == word_positions(chars@.take(i as int)),
        decreases chars.len() - i,
    {
        let ghost pre = chars@.take(i as int);
        let ghost s = chars@.take(i + 1);
        let ghost before = spans@;
        proof {
            assert(s.drop_last() =~= pre);
            assert(s.last() == chars@[i as int]);
            lemma_word_positions(pre);
        }
        if !is_whitespace(chars[i]) {
            if i > 0 && !is_whitespace(chars[i - 1]) {
                proof {
                    assert(s[s.len() - 2] == chars@[i - 1]);
                    assert(pre.last() == chars@[i - 1]);
                }
                let last: usize = spans.len() - 1;
                let start: usize = spans[last].0;
                spans.set(last, (start, i + 1));
                proof {
                    assert(spans_view(before)[last as int].0 == start);
                    assert(spans_view(spans@) =~= spans_view(before).drop_last().push(
                        (start as int, i + 1),
                    ));
                }
            } else {
                proof {
                    if i > 0 {
                        assert(s[s.len() - 2] == chars@[i - 1]);
                    }
                }
                spans.push((i, i + 1));
                assert(spans_view(spans@) =~= spans_view(before).push((i as int, i + 1)));
            }
        }
        i += 1;
    }
    assert(chars@.take(i as int) =~= chars@);
    spans
}

/// The number of whitespace-separated words in `text`.
pub fn word_count(text: &str) -> (n: usize)
    ensures
        n == words(text@).len(),
{
    let chars = chars_of(text);
    let spans = word_spans(&chars);
    proof {
        lemma_word_positions(text@);
    }
    spans.len()
}

/// `text` without its leading and trailing whitespace.
pub fn trim<'a>(text: &'a str) -> (r: &'a str)
    ensures
        r@ == trimmed(text@),
{
    let chars = chars_of(text);
    let n: usize = chars.len();
    let mut a: usize = 0;
    assert(chars@.skip(0) =~= chars@);
    while a < n && is_whitespace(chars[a])
        invariant
            a <= n,
            n == chars@.len(),
            trim_start(chars@) == trim_start(chars@.skip(a as int)),
        decreases n - a,
    {
        assert(chars@.skip(a as int).drop_first() =~= chars@.skip(a + 1));
        a += 1;
    }
    let ghost rest = chars@.skip(a as int);
    assert(trim_start(chars@) == rest);
    let mut b: usize = n;
    assert(chars@.subrange(a as int, n as int) =~= rest);
    while b > a && is_whitespace(chars[b - 1])
        invariant
            a <= b <= n,
            n == chars@.len(),
            trim_end(rest) == trim_end(chars@.subrange(a as int, b as int)),
        decreases b,
    {
        assert(chars@.subrange(a as int, b as int).drop_last() =~= chars@.subrange(
            a as int,
            b - 1,
        ));
        b -= 1;
    }
    text.substring_char(a, b)
}

/// Holds `text` to at most `max_words` whitespace-separated words: a text
/// within the budget comes back unchanged, a longer one is cut to its first
/// `max_words` words, joined by single spaces.
pub fn truncate_to_words(text: &str, max_words: usize) -> (r: String)
    ensures
        r@ == truncated(text@, max_words as nat),
        words(r@).len() <= max_words,
        words(r@) == words(text@).take(
            if words(text@).len() <= max_words {
                words(text@).len() as int
            } else {
                max_words as int
            },
        ),
{
    let chars = chars_of(text);
    let spans = word_spans(&chars);
    proof {
        lemma_truncated_words(text@, max_words as nat);
        lemma_word_positions(text@);
        assert(words(text@).take(words(text@).len() as int) =~= words(text@));
    }
    if spans.len() <= max_words {
        return String::from_str(text);
    }
    let ghost ws = words(text@);
    let mut out = String::new();
    let mut k: usize = 0;
    assert(ws.take(0) =~= Seq::<Seq<char>>::empty());
    while k < max_words
        invariant
            k <= max_words < spans@.len(),
            chars@ == text@,
            ws == words(text@),
            spans_view(spans@) == word_positions(text@),
            spans@.len() == ws.len(),
            out@ == join_words(ws.take(k as int)),
        decreases max_words - k,
    {
        if k > 0 {
            proof {
                reveal_strlit(" ");
                assert(" "@ =~= seq![' ']);
            }
            out.append(" ");
        }
        let span = spans[k];
        proof {
            lemma_word_positions(text@);
            assert(spans_view(spans@)[k as int] == (span.0 as int, span.1 as int));
        }
        out.append(text.substring_char(span.0, span.1));
        proof {
            let next = ws.take(k + 1);
            assert(next.drop_last() =~= ws.take(k as int));
            assert(next.last() == ws[k as int]);
            if k == 0 {
                assert(out@ =~= ws[0]);
            }
        }
        k += 1;
    }
    out
}

/// Whether two texts hold the same characters.
pub fn same_text(a: &str, b: &str) -> (r: bool)
    ensures
        r == (a@ == b@),
{
    let x = chars_of(a);
    let y = chars_of(b);
    if x.len() != y.len() {
        return false;
    }
    let mut i: usize = 0;
    while i < x.len()
        invariant
            i <= x.len(),
            x.len() == y.len(),
            x@ == a@,
            y@ == b@,
            x@.take(i as int) == y@.take(i as int),
        decreases x.len() - i,
    {
        if x[i] != y[i] {
            assert(x@[i as int] != y@[i as int]);
            return false;
        }
        assert(x@.take(i + 1) =~= x@.take(i as int).push(x@[i as int]));
        assert(y@.take(i + 1) =~= y@.take(i as int).push(y@[i as int]));
        i += 1;
    }
    assert(x@.take(i as int) =~= x@);
    assert(y@.take(i as int) =~= y@);
    true
}

} // verus!
