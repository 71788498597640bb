//! The text reported for a matching file, at each level of detail.

use vstd::prelude::*;
use crate::paragraphs::{entries_view, get_paragraphs, matching_paragraphs, push_char};
use crate::pattern::Pattern;

verus! {

/// The decimal digit for `d`, which is below ten.
pub open spec fn digit(d: nat) -> char {
    ((48 + d) as u8) as char
}

/// The decimal numeral of `n`, without leading zeros.
pub open spec fn decimal(n: nat) -> Seq<char>
    decreases n,
{
    if n < 10 {
        seq![digit(n)]
    } else {
        decimal(n / 10).push(digit(n % 10))
    }
}

/// Appends the decimal numeral of `n` to `s`.
fn push_decimal(s: &mut String, n: usize)
    ensures
        final(s)@ == old(s)@ + decimal(n as nat),
    decreases n,
{
    if n >= 10 {
        push_decimal(s, n / 10);
    }
    let d: u8 = (n % 10) as u8;
    push_char(s, (48 + d) as char);
}

/// The positions of `m`, as decimal numerals separated by `", "`.
pub open spec fn index_list(m: Seq<(int, Seq<char>)>) -> Seq<char>
    decreases m.len(),
{
    if m.len() == 0 {
        Seq::empty()
    } else if m.len() == 1 {
        decimal(m[0].0 as nat)
    } else {
        index_list(m.drop_last()) + seq![',', ' '] + decimal(m.last().0 as nat)
    }
}

/// One numbered paragraph as a line of the detailed report: two spaces, the
/// position, a colon and a space, then the paragraph.
pub open spec fn detail_line(e: (int, Seq<char>)) -> Seq<char> {
    seq![' ', ' '] + decimal(e.0 as nat) + seq![':', ' '] + e.1
}

/// The detail lines of `m`, separated by line breaks.
pub open spec fn detail_lines(m: Seq<(int, Seq<char>)>) -> Seq<char>
    decreases m.len(),
{
    if m.len() == 0 {
        Seq::empty()
    } else if m.len() == 1 {
        detail_line(m[0])
    } else {
        detail_lines(m.drop_last()) + seq!['\n'] + detail_line(m.last())
    }
}

/// The report for a file at `path` whose matching paragraphs are `m`:
/// level 1 gives the path alone; level 2 the path and the positions in
/// parentheses; any other level the path, a line break, and one detail line
/// per matching paragraph.
pub open spec fn response(path: Seq<char>, m: Seq<(int, Seq<char>)>, verbosity: i8) -> Seq<char> {
    if verbosity == 1 {
        path
    } else if verbosity == 2 {
        path + seq![' ', '('] + index_list(m) + seq![')']
    } else {
        path + seq!['\n'] + detail_lines(m)
    }
}

/// The text reported for a matching file. `path` is the file's path as it is
/// displayed, `content` its extracted text.
pub fn build_response(path: &str, content: &str, pattern: &Pattern, verbosity: &i8) -> (r: String)
    ensures
        r@ == response(path@, matching_paragraphs(content@, pattern@), *verbosity),
        *verbosity == 1 ==> r@ == path@,
        *verbosity == 2 ==> r@ == path@ + seq![' ', '('] + index_list(
            matching_paragraphs(content@, pattern@),
        ) + seq![')'],
        *verbosity != 1 && *verbosity != 2 ==> r@ == path@ + seq!['\n'] + detail_lines(
            matching_paragraphs(content@, pattern@),
        ),
{
    let mut res = String::from_str(path);
    if *verbosity == 1 {
        return res;
    }
    let found = get_paragraphs(content, pattern);
    let ghost m = matching_paragraphs(content@, pattern@);
    if *verbosity == 2 {
        push_char(&mut res, ' ');
        push_char(&mut res, '(');
        let mut k: usize = 0;
        while k < found.len()
            invariant
                k <= found.len(),
                entries_view(found@) == m,
                res@ == path@ + seq![' ', '('] + index_list(m.take(k as int)),
            decreases found.len() - k,
        {
            assert(m.take(k + 1).drop_last() =~= m.take(k as int));
            assert(m[k as int].0 == found@[k as int].0 as int);
            if k > 0 {
                push_char(&mut res, ',');
                push_char(&mut res, ' ');
            }
            push_decimal(&mut res, found[k].0);
            assert(res@ =~= path@ + seq![' ', '('] + index_list(m.take(k + 1)));
            k = k + 1;
        }
        assert(m.take(found.len() as int) =~= m);
        push_char(&mut res, ')');
        assert(res@ =~= path@ + seq![' ', '('] + index_list(m) + seq![')']);
    } else {
        push_char(&mut res, '\n');
        let mut k: usize = 0;
        while k < found.len()
            invariant
                k <= found.len(),
                entries_view(found@) == m,
                res@ == path@ + seq!['\n'] + detail_lines(m.take(k as int)),
            decreases found.len() - k,
        {
            assert(m.take(k + 1).drop_last() =~= m.take(k as int));
            assert(m[k as int].0 == found@[k as int].0 as int);
            assert(m[k as int].1 == found@[k as int].1@);
            if k > 0 {
                push_char(&mut res, '\n');
            }
            push_char(&mut res, ' ');
            push_char(&mut res, ' ');
            push_decimal(&mut res, found[k].0);
            push_char(&mut res, ':');
            push_char(&mut res, ' ');
            res.append(found[k].1.as_str());
            assert(res@ =~= path@ + seq!['\n'] + detail_lines(m.take(k + 1)));
            k = k + 1;
        }
        assert(m.take(found.len() as int) =~= m);
    }
    res
}

} // verus!
