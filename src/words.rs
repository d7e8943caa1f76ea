use vstd::prelude::*;

verus! {

/// The characters with the Unicode `White_Space` property.
pub open spec fn is_white_space(c: char) -> bool {
    ('\u{9}' <= c && c <= '\u{d}') || c == ' ' || c == '\u{85}' || c == '\u{a0}' || c
        == '\u{1680}' || ('\u{2000}' <= c && c <= '\u{200a}') || c == '\u{2028}' || c
        == '\u{2029}' || c == '\u{202f}' || c == '\u{205f}' || c == '\u{3000}'
}

/// Executable form of `is_white_space`.
pub fn white_space(c: char) -> (r: bool)
    ensures
        r == is_white_space(c),
{
    ('\u{9}' <= c && c <= '\u{d}') || c == ' ' || c == '\u{85}' || c == '\u{a0}' || c
        == '\u{1680}' || ('\u{2000}' <= c && c <= '\u{200a}') || c == '\u{2028}' || c
        == '\u{2029}' || c == '\u{202f}' || c == '\u{205f}' || c == '\u{3000}'
}

/// Reading `s` left to right: the words already closed, and the word being read.
pub open spec fn scan(s: Seq<char>) -> (Seq<Seq<char>>, Seq<char>)
    decreases s.len(),
{
    if s.len() == 0 {
        (seq![], seq![])
    } else {
        let (done, cur) = scan(s.drop_last());
        let c = s.last();
        if is_white_space(c) {
            if cur.len() > 0 {
                (done.push(cur), seq![])
            } else {
                (done, seq![])
            }
        } else {
            (done, cur.push(c))
        }
    }
}

/// The maximal runs of non-white-space characters of `s`, in order.
pub open spec fn words(s: Seq<char>) -> Seq<Seq<char>> {
    let (done, cur) = scan(s);
    if cur.len() > 0 {
        done.push(cur)
    } else {
        done
    }
}

/// How many times `w` occurs in `ws`.
pub open spec fn occurrences(ws: Seq<Seq<char>>, w: Seq<char>) -> nat
    decreases ws.len(),
{
    if ws.len() == 0 {
        0
    } else {
        occurrences(ws.drop_last(), w) + if ws.last() == w {
            1nat
        } else {
            0nat
        }
    }
}

proof fn lemma_occurrences_bound(ws: Seq<Seq<char>>, w: Seq<char>)
    ensures
        occurrences(ws, w) <= ws.len(),
    decreases ws.len(),
{
    if ws.len() > 0 {
        lemma_occurrences_bound(ws.drop_last(), w);
    }
}

/// Splits `text` at white space, dropping empty pieces.
pub fn split_whitespace(text: &str) -> (r: Vec<String>)
    ensures
        r@.map_values(|w: String| w@) == words(text@),
{
    let n = text.unicode_len();
    let mut out: Vec<String> = Vec::new();
    let mut start: usize = 0;
    let mut i: usize = 0;
    while i < n
        invariant
            n == text@.len(),
            start <= i <= n,
            scan(text@.take(i as int)).0 == out@.map_values(|w: String| w@),
            scan(text@.take(i as int)).1 == text@.subrange(start as int, i as int),
        decreases n - i,
    {
        let c = text.get_char(i);
        proof {
            assert(text@.take(i + 1).drop_last() =~= text@.take(i as int));
        }
        if white_space(c) {
            if start < i {
                let w = text.substring_char(start, i).to_owned();
                out.push(w);
                assert(out@.map_values(|w: String| w@) =~= scan(text@.take(i as int)).0.push(
                    scan(text@.take(i as int)).1,
                ));
            }
            start = i + 1;
        } else {
            assert(text@.subrange(start as int, i + 1) =~= text@.subrange(
                start as int,
                i as int,
            ).push(c));
        }
        i = i + 1;
        assert(text@.subrange(start as int, i as int).len() == i - start);
    }
    assert(text@.take(n as int) =~= text@);
    if start < n {
        let w = text.substring_char(start, n).to_owned();
        out.push(w);
        assert(out@.map_values(|w: String| w@) =~= words(text@));
    } else {
        assert(out@.map_values(|w: String| w@) =~= words(text@));
    }
    out
}

/// Whether the keys of `entries` are pairwise distinct.
pub open spec fn distinct_keys(entries: Seq<(String, usize)>) -> bool {
    forall|a: int, b: int|
        0 <= a < b < entries.len() ==> #[trigger] entries[a].0@ != #[trigger] entries[b].0@
}

/// Whether `w` occurs in `ws` before position `end`.
pub open spec fn occurs_before(ws: Seq<Seq<char>>, w: Seq<char>, end: int) -> bool {
    exists|i: int| 0 <= i < end && #[trigger] ws[i] == w
}

/// `entries` tallies `ws`: one entry per distinct word, with its number of
/// occurrences, in order of first appearance, and no entry for anything else.
pub open spec fn is_tally_of(entries: Seq<(String, usize)>, ws: Seq<Seq<char>>) -> bool {
    &&& counts_cover(entries, ws)
    &&& keys_occur_before(entries, ws, ws.len() as int)
}

/// The keys of `entries` are distinct, counted in `ws`, cover `ws`, and come in
/// order of first appearance in `ws`.
pub open spec fn counts_cover(entries: Seq<(String, usize)>, ws: Seq<Seq<char>>) -> bool {
    &&& distinct_keys(entries)
    &&& forall|k: int|
        0 <= k < entries.len() ==> #[trigger] entries[k].1 == occurrences(ws, entries[k].0@)
    &&& forall|j: int|
        0 <= j < ws.len() ==> exists|k: int|
            0 <= k < entries.len() && #[trigger] entries[k].0@ == #[trigger] ws[j]
    &&& forall|a: int, b: int, j: int|
        0 <= a < b < entries.len() && 0 <= j < ws.len() && #[trigger] ws[j]
            == #[trigger] entries[b].0@ ==> occurs_before(ws, #[trigger] entries[a].0@, j)
}

proof fn lemma_occurrences_step(ws: Seq<Seq<char>>, j: int, x: Seq<char>)
    requires
        0 <= j < ws.len(),
    ensures
        occurrences(ws.take(j + 1), x) == occurrences(ws.take(j), x) + if ws[j] == x {
            1nat
        } else {
            0nat
        },
{
    assert(ws.take(j + 1).drop_last() =~= ws.take(j));
}

/// Every key of `entries` occurs in `ws` before position `end`.
pub open spec fn keys_occur_before(entries: Seq<(String, usize)>, ws: Seq<Seq<char>>, end: int) -> bool {
    forall|k: int| 0 <= k < entries.len() ==> occurs_before(ws, #[trigger] entries[k].0@, end)
}

proof fn lemma_tally_bump(
    old_entries: Seq<(String, usize)>,
    entries: Seq<(String, usize)>,
    ws: Seq<Seq<char>>,
    j: int,
    k: int,
)
    requires
        0 <= j < ws.len(),
        0 <= k < old_entries.len(),
        counts_cover(old_entries, ws.take(j)),
        keys_occur_before(old_entries, ws, j),
        old_entries[k].0@ == ws[j],
        entries.len() == old_entries.len(),
        entries[k].0 == old_entries[k].0,
        entries[k].1 == old_entries[k].1 + 1,
        forall|m: int| 0 <= m < entries.len() && m != k ==> entries[m] == old_entries[m],
    ensures
        counts_cover(entries, ws.take(j + 1)),
        keys_occur_before(entries, ws, j + 1),
{
    let pre = ws.take(j);
    let post = ws.take(j + 1);
    assert forall|x: Seq<char>|
        occurrences(post, x) == occurrences(pre, x) + if ws[j] == x {
            1nat
        } else {
            0nat
        } by {
        lemma_occurrences_step(ws, j, x);
    }
    assert forall|m: int| 0 <= m < entries.len() implies #[trigger] entries[m].0@
        == old_entries[m].0@ by {}
    assert forall|m: int| 0 <= m < entries.len() implies #[trigger] entries[m].1 == occurrences(
        post,
        entries[m].0@,
    ) by {}
    assert forall|i: int| 0 <= i < post.len() implies exists|m: int|
        0 <= m < entries.len() && #[trigger] entries[m].0@ == #[trigger] post[i] by {
        if i < j {
            assert(post[i] == pre[i]);
            let m = choose|m: int| 0 <= m < old_entries.len() && #[trigger] old_entries[m].0@ == pre[i];
            assert(entries[m].0@ == post[i]);
        } else {
            assert(entries[k].0@ == post[i]);
        }
    }
    assert forall|a: int, b: int, i: int|
        0 <= a < b < entries.len() && 0 <= i < post.len() && #[trigger] post[i]
            == #[trigger] entries[b].0@ implies occurs_before(post, #[trigger] entries[a].0@, i) by {
        if i < j {
            assert(pre[i] == post[i]);
            let i2 = choose|i2: int| 0 <= i2 < i && #[trigger] pre[i2] == old_entries[a].0@;
            assert(post[i2] == pre[i2]);
        } else {
            assert(occurs_before(ws, old_entries[b].0@, j));
            let i0 = choose|i0: int| 0 <= i0 < j && #[trigger] ws[i0] == old_entries[b].0@;
            assert(pre[i0] == ws[i0]);
            let i2 = choose|i2: int| 0 <= i2 < i0 && #[trigger] pre[i2] == old_entries[a].0@;
            assert(post[i2] == pre[i2]);
        }
    }
    assert forall|m: int| 0 <= m < entries.len() implies occurs_before(
        ws,
        #[trigger] entries[m].0@,
        j + 1,
    ) by {
        assert(occurs_before(ws, old_entries[m].0@, j));
    }
}

proof fn lemma_tally_new(
    old_entries: Seq<(String, usize)>,
    entries: Seq<(String, usize)>,
    ws: Seq<Seq<char>>,
    j: int,
)
    requires
        0 <= j < ws.len(),
        counts_cover(old_entries, ws.take(j)),
        keys_occur_before(old_entries, ws, j),
        forall|m: int| 0 <= m < old_entries.len() ==> #[trigger] old_entries[m].0@ != ws[j],
        entries.len() == old_entries.len() + 1,
        entries[old_entries.len() as int].0@ == ws[j],
        entries[old_entries.len() as int].1 == 1,
        forall|m: int| 0 <= m < old_entries.len() ==> entries[m] == old_entries[m],
    ensures
        counts_cover(entries, ws.take(j + 1)),
        keys_occur_before(entries, ws, j + 1),
{
    let pre = ws.take(j);
    let post = ws.take(j + 1);
    let last = old_entries.len() as int;
    assert forall|x: Seq<char>|
        occurrences(post, x) == occurrences(pre, x) + if ws[j] == x {
            1nat
        } else {
            0nat
        } by {
        lemma_occurrences_step(ws, j, x);
    }
    assert(occurrences(pre, ws[j]) == 0) by {
        assert forall|i: int| 0 <= i < pre.len() implies #[trigger] pre[i] != ws[j] by {
            let m = choose|m: int| 0 <= m < old_entries.len() && #[trigger] old_entries[m].0@ == pre[i];
        }
        lemma_occurrences_absent(pre, ws[j]);
    }
    assert forall|m: int| 0 <= m < entries.len() implies #[trigger] entries[m].1 == occurrences(
        post,
        entries[m].0@,
    ) by {
        if m < last {
            assert(entries[m] == old_entries[m]);
        }
    }
    assert forall|a: int, b: int| 0 <= a < b < entries.len() implies #[trigger] entries[a].0@
        != #[trigger] entries[b].0@ by {
        assert(entries[a] == old_entries[a]);
        if b < last {
            assert(entries[b] == old_entries[b]);
        }
    }
    assert forall|i: int| 0 <= i < post.len() implies exists|m: int|
        0 <= m < entries.len() && #[trigger] entries[m].0@ == #[trigger] post[i] by {
        if i < j {
            assert(post[i] == pre[i]);
            let m = choose|m: int| 0 <= m < old_entries.len() && #[trigger] old_entries[m].0@ == pre[i];
            assert(entries[m] == old_entries[m]);
        } else {
            assert(entries[last].0@ == post[i]);
        }
    }
    assert forall|a: int, b: int, i: int|
        0 <= a < b < entries.len() && 0 <= i < post.len() && #[trigger] post[i]
            == #[trigger] entries[b].0@ implies occurs_before(post, #[trigger] entries[a].0@, i) by {
        assert(entries[a] == old_entries[a]);
        if b < last {
            assert(entries[b] == old_entries[b]);
            if i < j {
                assert(pre[i] == post[i]);
                let i2 = choose|i2: int| 0 <= i2 < i && #[trigger] pre[i2] == old_entries[a].0@;
                assert(post[i2] == pre[i2]);
            } else {
                assert(post[i] == ws[j]);
                assert(false);
            }
        } else {
            if i < j {
                assert(post[i] == pre[i]);
                let m = choose|m: int| 0 <= m < old_entries.len() && #[trigger] old_entries[m].0@ == pre[i];
                assert(false);
            }
            assert(occurs_before(ws, old_entries[a].0@, j));
            let i2 = choose|i2: int| 0 <= i2 < j && #[trigger] ws[i2] == old_entries[a].0@;
            assert(post[i2] == ws[i2]);
        }
    }
    assert forall|m: int| 0 <= m < entries.len() implies occurs_before(
        ws,
        #[trigger] entries[m].0@,
        j + 1,
    ) by {
        if m < last {
            assert(entries[m] == old_entries[m]);
            assert(occurs_before(ws, old_entries[m].0@, j));
        } else {
            assert(ws[j] == entries[m].0@);
        }
    }
}

/// Counts each word of `words`, keeping the words in order of first appearance.
pub fn tally(words: &Vec<String>) -> (r: Vec<(String, usize)>)
    ensures
        is_tally_of(r@, words@.map_values(|w: String| w@)),
{
    let ghost ws = words@.map_values(|w: String| w@);
    let mut entries: Vec<(String, usize)> = Vec::new();
    let mut j: usize = 0;
    while j < words.len()
        invariant
            ws == words@.map_values(|w: String| w@),
            j <= words.len(),
            counts_cover(entries@, ws.take(j as int)),
            keys_occur_before(entries@, ws, j as int),
        decreases words.len() - j,
    {
        let w = &words[j];
        let ghost old_entries = entries@;
        assert(ws[j as int] == w@);
        let mut k: usize = 0;
        let mut found = false;
        while k < entries.len() && !found
            invariant
                entries@ == old_entries,
                k <= entries.len(),
                found ==> k < entries.len() && entries@[k as int].0@ == w@,
                forall|m: int| 0 <= m < k ==> #[trigger] entries@[m].0@ != w@,
            decreases entries.len() - k + if found {
                0int
            } else {
                1int
            },
        {
            if entries[k].0 == *w {
                found = true;
            } else {
                k = k + 1;
            }
        }
        if found {
            proof {
                lemma_occurrences_bound(ws.take(j as int), w@);
            }
            let key = entries[k].0.clone();
            let count = entries[k].1 + 1;
            entries.set(k, (key, count));
            proof {
                lemma_tally_bump(old_entries, entries@, ws, j as int, k as int);
            }
        } else {
            entries.push((w.clone(), 1));
            proof {
                lemma_tally_new(old_entries, entries@, ws, j as int);
            }
        }
        j = j + 1;
    }
    assert(ws.take(j as int) =~= ws);
    entries
}

/// Counts the white-space separated words of `text`, in order of first appearance.
pub fn word_count(text: &str) -> (r: Vec<(String, usize)>)
    ensures
        is_tally_of(r@, words(text@)),
{
    let ws = split_whitespace(text);
    tally(&ws)
}

proof fn lemma_occurrences_absent(ws: Seq<Seq<char>>, w: Seq<char>)
    requires
        forall|i: int| 0 <= i < ws.len() ==> #[trigger] ws[i] != w,
    ensures
        occurrences(ws, w) == 0,
    decreases ws.len(),
{
    if ws.len() > 0 {
        assert forall|i: int| 0 <= i < ws.drop_last().len() implies #[trigger] ws.drop_last()[i] != w by {
            assert(ws.drop_last()[i] == ws[i]);
        }
        lemma_occurrences_absent(ws.drop_last(), w);
    }
}

} // verus!
