//! Cutting extracted text into paragraphs and picking those that match.

use vstd::prelude::*;
use crate::pattern::{Pattern, PatternView};

verus! {

/// Relies on String::push: appends one character.
#[verifier::external_body]
pub(crate) fn push_char(s: &mut String, c: char)
    ensures
        final(s)@ == old(s)@.push(c),
{
    s.push(c);
}

/// The paragraphs of `text`: the pieces between line breaks, in order. A text
/// with `k` line breaks has `k + 1` paragraphs, some of which may be empty.
pub open spec fn paragraphs(text: Seq<char>) -> Seq<Seq<char>>
    decreases text.len(),
{
    if text.len() == 0 {
        seq![Seq::empty()]
    } else {
        let prev = paragraphs(text.drop_last());
        if text.last() == '\n' {
            prev.push(Seq::empty())
        } else {
            prev.update(prev.len() - 1, prev.last().push(text.last()))
        }
    }
}

/// The entries `(index, paragraph)` of `ps` whose paragraph `p` matches, in
/// order.
pub open spec fn matching(ps: Seq<Seq<char>>, p: PatternView) -> Seq<(int, Seq<char>)>
    decreases ps.len(),
{
    if ps.len() == 0 {
        Seq::empty()
    } else {
        let prev = matching(ps.drop_last(), p);
        if p.matches(ps.last()) {
            prev.push((ps.len() - 1, ps.last()))
        } else {
            prev
        }
    }
}

/// The numbered paragraphs of `text` that match `p`.
pub open spec fn matching_paragraphs(text: Seq<char>, p: PatternView) -> Seq<(int, Seq<char>)> {
    matching(paragraphs(text), p)
}

/// What a list of numbered paragraphs holds, as numbers and character strings.
pub open spec fn entries_view(v: Seq<(usize, String)>) -> Seq<(int, Seq<char>)> {
    v.map_values(|e: (usize, String)| (e.0 as int, e.1@))
}

/// Every entry of `matching(ps, p)` names a paragraph of `ps` by its position,
/// carries that paragraph, and matches; positions strictly increase; and each
/// matching paragraph of `ps` has an entry.
pub proof fn lemma_matching(ps: Seq<Seq<char>>, p: PatternView)
    ensures
        forall|k: int|
            0 <= k < matching(ps, p).len() ==> {
                let e = #[trigger] matching(ps, p)[k];
                &&& 0 <= e.0 < ps.len()
                &&& e.1 == ps[e.0]
                &&& p.matches(e.1)
            },
        forall|k1: int, k2: int|
            0 <= k1 < k2 < matching(ps, p).len() ==> #[trigger] matching(ps, p)[k1].0
                < #[trigger] matching(ps, p)[k2].0,
        forall|i: int|
            0 <= i < ps.len() && p.matches(#[trigger] ps[i]) ==> exists|k: int|
                0 <= k < matching(ps, p).len() && #[trigger] matching(ps, p)[k].0 == i,
    decreases ps.len(),
{
    if ps.len() > 0 {
        let prev = ps.drop_last();
        lemma_matching(prev, p);
        let m = matching(ps, p);
        let mp = matching(prev, p);
        assert forall|i: int| 0 <= i < ps.len() && p.matches(#[trigger] ps[i]) implies exists|k: int|
            0 <= k < m.len() && #[trigger] m[k].0 == i by {
            if i < ps.len() - 1 {
                assert(prev[i] == ps[i]);
                let k = choose|k: int| 0 <= k < mp.len() && #[trigger] mp[k].0 == i;
                assert(m[k] == mp[k]);
            } else {
                assert(m[m.len() - 1].0 == i);
            }
        }
    }
}

/// The matching paragraphs of a text come in strictly increasing order of
/// position, each is the paragraph of the text at its position and matches
/// the pattern, and no matching paragraph is left out.
pub proof fn lemma_matching_paragraphs_ordered(text: Seq<char>, p: PatternView)
    ensures
        forall|k: int|
            0 <= k < matching_paragraphs(text, p).len() ==> {
                let e = #[trigger] matching_paragraphs(text, p)[k];
                &&& 0 <= e.0 < paragraphs(text).len()
                &&& e.1 == paragraphs(text)[e.0]
                &&& p.matches(e.1)
            },
        forall|k1: int, k2: int|
            0 <= k1 < k2 < matching_paragraphs(text, p).len() ==> #[trigger] matching_paragraphs(
                text,
                p,
            )[k1].0 < #[trigger] matching_paragraphs(text, p)[k2].0,
        forall|i: int|
            0 <= i < paragraphs(text).len() && p.matches(#[trigger] paragraphs(text)[i]) ==> exists|
                k: int,
            |
                0 <= k < matching_paragraphs(text, p).len() && #[trigger] matching_paragraphs(
                    text,
                    p,
                )[k].0 == i,
{
    let ps = paragraphs(text);
    lemma_matching(ps, p);
    assert forall|i: int| 0 <= i < ps.len() && p.matches(#[trigger] ps[i]) implies exists|k: int|
        0 <= k < matching_paragraphs(text, p).len() && #[trigger] matching_paragraphs(text, p)[k].0
            == i by {
        let k = choose|k: int| 0 <= k < matching(ps, p).len() && #[trigger] matching(ps, p)[k].0 == i;
        assert(matching_paragraphs(text, p)[k].0 == i);
    }
}

/// The paragraphs of `text` that match `pattern`, each with its zero-based
/// position among all paragraphs.
pub fn get_paragraphs(content: &str, pattern: &Pattern) -> (r: Vec<(usize, String)>)
    ensures
        entries_view(r@) == matching_paragraphs(content@, pattern@),
{
    let n = content.unicode_len();
    let mut result: Vec<(usize, String)> = Vec::new();
    let mut current = String::new();
    let mut index: usize = 0;
    for c in it: content.chars()
        invariant
            n == content@.len(),
            it.seq() == content@,
            index <= it.index(),
            paragraphs(content@.take(it.index() as int)).len() == index + 1,
            paragraphs(content@.take(it.index() as int)).last() == current@,
            entries_view(result@) == matching(
                paragraphs(content@.take(it.index() as int)).drop_last(),
                pattern@,
            ),
    {
        let ghost i = it.index() as int;
        let ghost ps = paragraphs(content@.take(i));
        assert(content@.take(i + 1).drop_last() =~= content@.take(i));
        if c == '\n' {
            if pattern.is_match(current.as_str()) {
                result.push((index, current));
            }
            assert(entries_view(result@) == matching(ps, pattern@)) by {
                assert(ps.drop_last().push(ps.last()) =~= ps);
            }
            current = String::new();
            index = index + 1;
            assert(paragraphs(content@.take(i + 1)).drop_last() =~= ps);
        } else {
            push_char(&mut current, c);
            assert(paragraphs(content@.take(i + 1)).drop_last() =~= ps.drop_last());
        }
    }
    assert(content@.take(n as int) =~= content@);
    let ghost ps = paragraphs(content@);
    if pattern.is_match(current.as_str()) {
        result.push((index, current));
    }
    assert(ps.drop_last().push(ps.last()) =~= ps);
    result
}

} // verus!
