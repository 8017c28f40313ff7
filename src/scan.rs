//! Finding the maximal runs of tab characters in a text.

use vstd::prelude::*;

verus! {

/// Whether the run list `runs` covers the character position `p`.
pub open spec fn covered(runs: Seq<(u32, u32)>, p: int) -> bool {
    exists|j: int| 0 <= j < runs.len() && (#[trigger] runs[j]).0 <= p < runs[j].1
}

/// `runs` lists, in increasing order, exactly the maximal runs of tabs in `text`,
/// each as a half-open range of character positions.
pub open spec fn tab_runs_of(text: Seq<char>, runs: Seq<(u32, u32)>) -> bool {
    &&& forall|j: int| 0 <= j < runs.len() ==> (#[trigger] runs[j]).0 < runs[j].1 <= text.len()
    &&& forall|i: int, j: int|
        0 <= i < j < runs.len() ==> (#[trigger] runs[i]).1 < (#[trigger] runs[j]).0
    &&& forall|j: int, p: int|
        0 <= j < runs.len() && (#[trigger] runs[j]).0 <= p < runs[j].1 ==> #[trigger] text[p]
            == '\t'
    &&& forall|j: int|
        0 <= j < runs.len() && (#[trigger] runs[j]).0 > 0 ==> text[runs[j].0 - 1] != '\t'
    &&& forall|j: int|
        0 <= j < runs.len() && (#[trigger] runs[j]).1 < text.len() ==> text[runs[j].1 as int]
            != '\t'
    &&& forall|p: int| 0 <= p < text.len() && #[trigger] text[p] == '\t' ==> covered(runs, p)
}

/// `text` with each character that `runs` covers replaced by `width` spaces.
pub open spec fn expand_runs(text: Seq<char>, runs: Seq<(u32, u32)>, width: nat) -> Seq<char>
    decreases text.len(),
{
    if text.len() == 0 {
        Seq::empty()
    } else {
        let k = text.len() - 1;
        expand_runs(text.take(k), runs, width) + if covered(runs, k) {
            Seq::new(width, |i: int| ' ')
        } else {
            seq![text[k]]
        }
    }
}

/// Some character of `text` in the positions `[lo, hi)` is not a tab.
pub open spec fn separated(text: Seq<char>, lo: int, hi: int) -> bool {
    exists|q: int| lo <= q < hi && text[q] != '\t'
}

/// The runs of tabs of a text cover exactly the positions that hold a tab; they
/// never overlap, and between two of them stands a character that is not a tab.
pub proof fn lemma_runs_cover_exactly_the_tabs(text: Seq<char>, runs: Seq<(u32, u32)>)
    requires
        tab_runs_of(text, runs),
    ensures
        Set::new(|p: int| covered(runs, p)) == Set::new(
            |p: int| 0 <= p < text.len() && text[p] == '\t',
        ),
        forall|i: int, j: int|
            0 <= i < j < runs.len() ==> separated(text, (#[trigger] runs[i]).1 as int, (
            #[trigger] runs[j]).0 as int),
{
    assert forall|i: int, j: int| 0 <= i < j < runs.len() implies separated(
        text,
        (#[trigger] runs[i]).1 as int,
        (#[trigger] runs[j]).0 as int,
    ) by {
        let q = runs[i].1 as int;
        assert(runs[i].1 < runs[j].0);
        assert(text[q] != '\t');
    }
    assert forall|p: int| covered(runs, p) implies 0 <= p < text.len() && text[p] == '\t' by {
        let j = choose|j: int| 0 <= j < runs.len() && (#[trigger] runs[j]).0 <= p < runs[j].1;
        assert(text[p] == '\t');
    }
    assert(Set::new(|p: int| covered(runs, p)) =~= Set::new(
        |p: int| 0 <= p < text.len() && text[p] == '\t',
    ));
}

proof fn lemma_expanded_has_no_tab(text: Seq<char>, runs: Seq<(u32, u32)>, width: nat)
    requires
        forall|p: int| 0 <= p < text.len() && #[trigger] text[p] == '\t' ==> covered(runs, p),
    ensures
        forall|q: int|
            0 <= q < expand_runs(text, runs, width).len() ==> #[trigger] expand_runs(
                text,
                runs,
                width,
            )[q] != '\t',
    decreases text.len(),
{
    if text.len() > 0 {
        let k = text.len() - 1;
        let front = text.take(k);
        assert forall|p: int| 0 <= p < front.len() && #[trigger] front[p] == '\t' implies covered(
            runs,
            p,
        ) by {
            assert(text[p] == front[p]);
        }
        lemma_expanded_has_no_tab(front, runs, width);
        let head = expand_runs(front, runs, width);
        let tail = if covered(runs, k) {
            Seq::new(width, |i: int| ' ')
        } else {
            seq![text[k]]
        };
        let e = expand_runs(text, runs, width);
        assert(e == head + tail);
        assert forall|q: int| 0 <= q < e.len() implies #[trigger] e[q] != '\t' by {
            if q < head.len() {
                assert(e[q] == head[q]);
            } else {
                assert(e[q] == tail[q - head.len()]);
            }
        }
    }
}

/// Replacing every character of the reported runs by `width` spaces leaves a
/// text in which a second scan finds no run at all.
pub proof fn lemma_expanded_text_has_no_runs(
    text: Seq<char>,
    runs: Seq<(u32, u32)>,
    width: nat,
    rescanned: Seq<(u32, u32)>,
)
    requires
        tab_runs_of(text, runs),
        tab_runs_of(expand_runs(text, runs, width), rescanned),
    ensures
        rescanned.len() == 0,
{
    lemma_expanded_has_no_tab(text, runs, width);
    if rescanned.len() > 0 {
        let e = expand_runs(text, runs, width);
        assert(rescanned[0].0 < rescanned[0].1);
        assert(e[rescanned[0].0 as int] == '\t');
    }
}

proof fn lemma_runs_agree_at(text: Seq<char>, a: Seq<(u32, u32)>, b: Seq<(u32, u32)>, k: int)
    requires
        tab_runs_of(text, a),
        tab_runs_of(text, b),
        0 <= k < a.len(),
        k < b.len(),
        forall|j: int| 0 <= j < k ==> a[j] == b[j],
    ensures
        a[k] == b[k],
{
    assert(a[k].0 == b[k].0) by {
        if a[k].0 < b[k].0 {
            lemma_start_is_covered_before(text, a, b, k);
        } else if b[k].0 < a[k].0 {
            lemma_start_is_covered_before(text, b, a, k);
        }
    }
    if a[k].1 < b[k].1 {
        assert(text[a[k].1 as int] == '\t');
    } else if b[k].1 < a[k].1 {
        assert(text[b[k].1 as int] == '\t');
    }
}

proof fn lemma_runs_agree_below(text: Seq<char>, a: Seq<(u32, u32)>, b: Seq<(u32, u32)>, k: int)
    requires
        tab_runs_of(text, a),
        tab_runs_of(text, b),
        0 <= k <= a.len(),
        k <= b.len(),
    ensures
        forall|j: int| 0 <= j < k ==> a[j] == b[j],
    decreases k,
{
    if k > 0 {
        lemma_runs_agree_below(text, a, b, k - 1);
        lemma_runs_agree_at(text, a, b, k - 1);
    }
}

/// Where the `k`th run of `a` starts before that of `b`, the two lists differ
/// before `k`.
proof fn lemma_start_is_covered_before(
    text: Seq<char>,
    a: Seq<(u32, u32)>,
    b: Seq<(u32, u32)>,
    k: int,
)
    requires
        tab_runs_of(text, a),
        tab_runs_of(text, b),
        0 <= k < a.len(),
        k <= b.len(),
        k < b.len() ==> a[k].0 < b[k].0,
    ensures
        exists|j: int| 0 <= j < k && a[j] != b[j],
{
    let p = a[k].0 as int;
    assert(text[p] == '\t');
    let j = choose|j: int| 0 <= j < b.len() && (#[trigger] b[j]).0 <= p < b[j].1;
    if j >= k {
        assert(b[k].0 <= b[j].0);
    } else {
        assert(a[j].1 < a[k].0);
        assert(a[j] != b[j]);
    }
}

/// A text has one list of runs of tabs only: the contract of
/// `get_chunks_of_tabs` fixes its result.
pub proof fn lemma_tab_runs_unique(text: Seq<char>, a: Seq<(u32, u32)>, b: Seq<(u32, u32)>)
    requires
        tab_runs_of(text, a),
        tab_runs_of(text, b),
    ensures
        a == b,
{
    let n = if a.len() < b.len() {
        a.len() as int
    } else {
        b.len() as int
    };
    lemma_runs_agree_below(text, a, b, n);
    if a.len() > n {
        lemma_start_is_covered_before(text, a, b, n);
    } else if b.len() > n {
        lemma_start_is_covered_before(text, b, a, n);
    }
    assert(a =~= b);
}

fn chars_of(s: &str) -> (r: Vec<char>)
    ensures
        r@ == s@,
{
    let mut r: Vec<char> = Vec::new();
    for c in it: s.chars()
        invariant
            r@ == it.seq().take(it.index() as int),
    {
        r.push(c);
    }
    r
}

/// Scans `the_str` for groups of tabs and returns the start (inclusive) and end
/// (exclusive) character positions of each group, in order.
/// For example `"sd\tasd\t\taa"` gives `[(2, 3), (6, 8)]`.
pub fn get_chunks_of_tabs(the_str: &str) -> (spans: Vec<(u32, u32)>)
    requires
        the_str@.len() <= u32::MAX,
    ensures
        tab_runs_of(the_str@, spans@),
{
    let chars_array = chars_of(the_str);
    let n = chars_array.len();
    let mut spans: Vec<(u32, u32)> = Vec::new();
    if n == 0 {
        return spans;
    }
    if n == 1 && chars_array[0] == '\t' {
        spans.push((0, 1));
        assert(spans@[0] == (0u32, 1u32));
        assert(covered(spans@, 0));
        return spans;
    }
    let ghost text = chars_array@;
    let mut current_start: u32 = 0;
    // whether the last group of tabs is still open
    let mut is_active = false;
    let mut index: usize = 0;
    while index + 1 < n
        invariant
            text == the_str@,
            chars_array@ == text,
            n == text.len(),
            n <= u32::MAX,
            n >= 1,
            !(n == 1 && text[0] == '\t'),
            index < n,
            current_start <= index,
            index == 0 ==> !is_active && current_start == 0,
            index > 0 ==> (is_active == (text[index as int] == '\t')),
            text[index as int] == '\t' ==> {
                &&& forall|p: int| current_start <= p <= index ==> #[trigger] text[p] == '\t'
                &&& current_start > 0 ==> text[current_start - 1] != '\t'
                &&& forall|j: int| 0 <= j < spans.len() ==> (#[trigger] spans@[j]).1 < current_start
            },
            forall|j: int| 0 <= j < spans.len() ==> (#[trigger] spans@[j]).0 < spans@[j].1 <= index,
            forall|i: int, j: int|
                0 <= i < j < spans.len() ==> (#[trigger] spans@[i]).1 < (#[trigger] spans@[j]).0,
            forall|j: int, p: int|
                0 <= j < spans.len() && (#[trigger] spans@[j]).0 <= p < spans@[j].1
                    ==> #[trigger] text[p] == '\t',
            forall|j: int|
                0 <= j < spans.len() && (#[trigger] spans@[j]).0 > 0 ==> text[spans@[j].0 - 1]
                    != '\t',
            forall|j: int|
                0 <= j < spans.len() ==> text[(#[trigger] spans@[j]).1 as int] != '\t',
            forall|p: int|
                0 <= p <= index && #[trigger] text[p] == '\t' ==> covered(spans@, p) || (
                text[index as int] == '\t' && current_start <= p),
        decreases n - index,
    {
        let a = chars_array[index];
        let b = chars_array[index + 1];
        let next = (index + 1) as u32;
        if a == '\t' && b == '\t' {
            is_active = true;
        } else if b == '\t' {
            // the start of a group
            is_active = true;
            current_start = next;
            assert forall|p: int|
                0 <= p <= index + 1 && #[trigger] text[p] == '\t' implies covered(spans@, p)
                || current_start <= p by {
                if p <= index {
                    assert(covered(spans@, p));
                }
            }
        } else if a == '\t' {
            // the end of a group
            is_active = false;
            let ghost old_spans = spans@;
            spans.push((current_start, next));
            assert(spans@[spans.len() - 1] == (current_start, next));
            assert forall|p: int|
                0 <= p <= index + 1 && #[trigger] text[p] == '\t' implies covered(spans@, p) by {
                if current_start <= p {
                    assert(spans@[spans.len() - 1].0 <= p < spans@[spans.len() - 1].1);
                } else {
                    let j = choose|j: int|
                        0 <= j < old_spans.len() && (#[trigger] old_spans[j]).0 <= p
                            < old_spans[j].1;
                    assert(spans@[j] == old_spans[j]);
                }
            }
        } else {
            assert forall|p: int|
                0 <= p <= index + 1 && #[trigger] text[p] == '\t' implies covered(spans@, p) by {
                if p <= index {
                    assert(covered(spans@, p));
                }
            }
        }
        index = index + 1;
    }
    // a group of tabs that runs to the end of the text
    if is_active {
        let ghost old_spans = spans@;
        spans.push((current_start, n as u32));
        assert(spans@[spans.len() - 1] == (current_start, n as u32));
        assert forall|p: int| 0 <= p < n && #[trigger] text[p] == '\t' implies covered(
            spans@,
            p,
        ) by {
            if current_start <= p {
                assert(spans@[spans.len() - 1].0 <= p < spans@[spans.len() - 1].1);
            } else {
                let j = choose|j: int|
                    0 <= j < old_spans.len() && (#[trigger] old_spans[j]).0 <= p < old_spans[j].1;
                assert(spans@[j] == old_spans[j]);
            }
        }
    }
    spans
}

} // verus!
