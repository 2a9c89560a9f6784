//! Cleaning a title: a span in round or square brackets whose text holds
//! "offic", in any case, is taken out, and with it one space before it.
//!
//! A title is read once from the left with one slot for each kind of
//! bracket. An opening bracket fills the slot of its kind with its index, so
//! that the most recent one counts; a closing bracket empties it. Where a
//! closing bracket finds its slot filled, the text from the slot's index up
//! to the closing bracket is a span. A span therefore holds no other bracket
//! of its own kind: of brackets nested in their own kind only the innermost
//! pair makes a span.

use crate::text::{
    chars_of, contains, contains_chars, lowercase, string_from_chars, to_lowercase,
};
use vstd::prelude::*;

verus! {

/// The slot of one kind of bracket after the first `n` characters of
/// `title`: the index of the last `opener` among them, unless a `closer`
/// follows it.
pub open spec fn open_slot(title: Seq<char>, opener: char, closer: char, n: int) -> Option<int>
    decreases n,
{
    if n <= 0 || n > title.len() {
        None
    } else if title[n - 1] == opener {
        Some(n - 1)
    } else if title[n - 1] == closer {
        None
    } else {
        open_slot(title, opener, closer, n - 1)
    }
}

/// The span that the character at `i` closes, if it closes one: where it
/// starts, and where it ends, which is behind the closing bracket.
pub open spec fn span_closed_at(title: Seq<char>, i: int) -> Option<(int, int)> {
    if title[i] == ')' {
        match open_slot(title, '(', ')', i) {
            Some(p) => Some((p, i + 1)),
            None => None,
        }
    } else if title[i] == ']' {
        match open_slot(title, '[', ']', i) {
            Some(p) => Some((p, i + 1)),
            None => None,
        }
    } else {
        None
    }
}

/// The spans that close within the first `n` characters of `title`, in the
/// order in which they close.
pub open spec fn spans(title: Seq<char>, n: int) -> Seq<(int, int)>
    decreases n,
{
    if n <= 0 || n > title.len() {
        Seq::empty()
    } else {
        match span_closed_at(title, n - 1) {
            Some(span) => spans(title, n - 1).push(span),
            None => spans(title, n - 1),
        }
    }
}

/// The mark that makes a span one to take out.
pub open spec fn official_mark() -> Seq<char> {
    "offic"@
}

/// The text of `title` from `from` up to `to`, in lower case, holds the
/// mark.
pub open spec fn is_marked(title: Seq<char>, from: int, to: int) -> bool {
    contains(lowercase(title.subrange(from, to)), official_mark())
}

/// The character at `i` goes with the span from `from` up to `to`: it stands
/// in the span, or it is a space and stands right before it.
pub open spec fn goes_with(title: Seq<char>, i: int, from: int, to: int) -> bool {
    from <= i < to || (i == from - 1 && 0 <= i && title[i] == ' ')
}

/// The character at `i` is taken out: it goes with a span that holds the
/// mark.
pub open spec fn taken_out(title: Seq<char>, i: int) -> bool {
    exists|from: int, to: int|
        is_span(title, from, to) && is_marked(title, from, to) && goes_with(title, i, from, to)
}

/// The first `n` characters of `title` without those that are taken out.
pub open spec fn kept(title: Seq<char>, n: int) -> Seq<char>
    decreases n,
{
    if n <= 0 || n > title.len() {
        Seq::empty()
    } else if taken_out(title, n - 1) {
        kept(title, n - 1)
    } else {
        kept(title, n - 1).push(title[n - 1])
    }
}

/// The cleaned title: the title without the spans that hold the mark and
/// without one space before each.
pub open spec fn cleaned_title(title: Seq<char>) -> Seq<char> {
    kept(title, title.len() as int)
}

/// The bounds in `found`, as integers.
pub open spec fn bounds(found: Seq<(usize, usize)>) -> Seq<(int, int)> {
    found.map_values(|p: (usize, usize)| (p.0 as int, p.1 as int))
}

/// The text of `title` from `from` up to `to` is a span: it starts with an
/// opening bracket and ends with the closing bracket of the same kind, and
/// holds no other bracket of that kind.
pub open spec fn is_span(title: Seq<char>, from: int, to: int) -> bool {
    &&& 0 <= from
    &&& from + 1 < to <= title.len()
    &&& {
        ||| title[from] == '(' && title[to - 1] == ')' && forall|k: int|
            from < k < to - 1 ==> title[k] != '(' && title[k] != ')'
        ||| title[from] == '[' && title[to - 1] == ']' && forall|k: int|
            from < k < to - 1 ==> title[k] != '[' && title[k] != ']'
    }
}

/// A filled slot holds the index of an opening bracket behind which no
/// bracket of its kind follows.
pub proof fn lemma_open_slot(title: Seq<char>, opener: char, closer: char, n: int)
    requires
        opener != closer,
    ensures
        match open_slot(title, opener, closer, n) {
            Some(p) => 0 <= p < n <= title.len() && title[p] == opener && forall|k: int|
                p < k < n ==> title[k] != opener && title[k] != closer,
            None => true,
        },
    decreases n,
{
    if 0 < n <= title.len() && title[n - 1] != opener && title[n - 1] != closer {
        lemma_open_slot(title, opener, closer, n - 1);
    }
}

/// An opening bracket behind which no bracket of its kind follows fills the
/// slot.
pub proof fn lemma_open_slot_filled(title: Seq<char>, opener: char, closer: char, n: int, p: int)
    requires
        opener != closer,
        0 <= p < n <= title.len(),
        title[p] == opener,
        forall|k: int| p < k < n ==> title[k] != opener && title[k] != closer,
    ensures
        open_slot(title, opener, closer, n) == Some(p),
    decreases n,
{
    if p < n - 1 {
        lemma_open_slot_filled(title, opener, closer, n - 1, p);
    }
}

/// What is found is exactly the spans of the title, each once, in the order
/// of their ends.
pub proof fn lemma_spans(title: Seq<char>, n: int)
    requires
        0 <= n <= title.len(),
    ensures
        forall|k: int|
            0 <= k < spans(title, n).len() ==> is_span(
                title,
                (#[trigger] spans(title, n)[k]).0,
                spans(title, n)[k].1,
            ) && spans(title, n)[k].1 <= n,
        forall|j: int, k: int|
            0 <= j < k < spans(title, n).len() ==> (#[trigger] spans(title, n)[j]).1 < (
            #[trigger] spans(title, n)[k]).1,
        forall|from: int, to: int|
            is_span(title, from, to) && to <= n ==> spans(title, n).contains((from, to)),
    decreases n,
{
    if n > 0 {
        let before = spans(title, n - 1);
        let now = spans(title, n);
        lemma_spans(title, n - 1);
        lemma_open_slot(title, '(', ')', n - 1);
        lemma_open_slot(title, '[', ']', n - 1);
        assert forall|from: int, to: int| is_span(title, from, to) && to <= n implies now.contains(
            (from, to),
        ) by {
            if to < n {
                let k = choose|k: int| 0 <= k < before.len() && before[k] == (from, to);
                assert(now[k] == (from, to));
            } else {
                if title[from] == '(' && title[to - 1] == ')' {
                    lemma_open_slot_filled(title, '(', ')', n - 1, from);
                } else {
                    lemma_open_slot_filled(title, '[', ']', n - 1, from);
                }
                assert(now[before.len() as int] == (from, to));
            }
        }
    }
}

/// The spans of `title`, in the order in which they close: for each, the
/// index of its opening bracket and the index behind its closing bracket.
pub fn closed_spans(title: &Vec<char>) -> (found: Vec<(usize, usize)>)
    ensures
        bounds(found@) == spans(title@, title@.len() as int),
        forall|k: int|
            0 <= k < found@.len() ==> (#[trigger] found@[k]).0 < found@[k].1 <= title@.len(),
        forall|k: int|
            0 <= k < found@.len() ==> is_span(
                title@,
                (#[trigger] found@[k]).0 as int,
                found@[k].1 as int,
            ),
{
    let n: usize = title.len();
    let mut found: Vec<(usize, usize)> = Vec::new();
    let mut round: Option<usize> = None;
    let mut square: Option<usize> = None;
    let mut i: usize = 0;
    assert(bounds(found@) == spans(title@, 0));
    while i < n
        invariant
            n == title@.len(),
            i <= n,
            bounds(found@) == spans(title@, i as int),
            forall|k: int| 0 <= k < found@.len() ==> (#[trigger] found@[k]).0 < found@[k].1 <= i,
            match round {
                Some(p) => open_slot(title@, '(', ')', i as int) == Some(p as int) && p < i,
                None => open_slot(title@, '(', ')', i as int) is None,
            },
            match square {
                Some(p) => open_slot(title@, '[', ']', i as int) == Some(p as int) && p < i,
                None => open_slot(title@, '[', ']', i as int) is None,
            },
        decreases n - i,
    {
        let c = title[i];
        let ghost before = bounds(found@);
        if c == '(' {
            round = Some(i);
        } else if c == '[' {
            square = Some(i);
        } else if c == ']' {
            if let Some(p) = square {
                found.push((p, i + 1));
                assert(bounds(found@) == before.push((p as int, i + 1)));
            }
            square = None;
        } else if c == ')' {
            if let Some(p) = round {
                found.push((p, i + 1));
                assert(bounds(found@) == before.push((p as int, i + 1)));
            }
            round = None;
        }
        i += 1;
    }
    proof {
        lemma_spans(title@, n as int);
        assert forall|k: int| 0 <= k < found@.len() implies is_span(
            title@,
            (#[trigger] found@[k]).0 as int,
            found@[k].1 as int,
        ) by {
            assert(bounds(found@)[k] == (found@[k].0 as int, found@[k].1 as int));
        }
    }
    found
}

/// Marks the characters that go with the span from `from` up to `to`, where
/// `lowered`, the text of the span in lower case, holds the mark. Nothing is
/// marked for bounds that are not within the title, nor where `marks` is not
/// as long as the title.
pub fn mark_span(
    marks: &mut Vec<bool>,
    title: &Vec<char>,
    from: usize,
    to: usize,
    lowered: &Vec<char>,
)
    ensures
        final(marks)@.len() == old(marks)@.len(),
        forall|i: int|
            0 <= i < old(marks)@.len() ==> #[trigger] final(marks)@[i] == (old(marks)@[i] || (
            old(marks)@.len() == title@.len() && from < to <= title@.len() && contains(
                lowered@,
                official_mark(),
            ) && goes_with(title@, i, from as int, to as int))),
{
    if marks.len() != title.len() || from >= to || to > title.len() {
        return ;
    }
    let mark = chars_of("offic");
    if !contains_chars(lowered, &mark) {
        return ;
    }
    let start: usize = if from > 0 && title[from - 1] == ' ' {
        from - 1
    } else {
        from
    };
    let mut i: usize = start;
    while i < to
        invariant
            start <= i <= to <= title@.len(),
            marks@.len() == old(marks)@.len() == title@.len(),
            from < to,
            start == if from > 0 && title@[from - 1] == ' ' {
                from - 1
            } else {
                from as int
            },
            forall|k: int|
                0 <= k < marks@.len() ==> #[trigger] marks@[k] == (old(marks)@[k] || start <= k < i),
        decreases to - i,
    {
        marks.set(i, true);
        i += 1;
    }
}

/// The characters of `title` from `from` up to `to`.
fn slice_of(title: &Vec<char>, from: usize, to: usize) -> (r: Vec<char>)
    requires
        from <= to <= title@.len(),
    ensures
        r@ == title@.subrange(from as int, to as int),
{
    let mut r: Vec<char> = Vec::new();
    let mut k: usize = from;
    while k < to
        invariant
            from <= k <= to <= title@.len(),
            r@ == title@.subrange(from as int, k as int),
        decreases to - k,
    {
        r.push(title[k]);
        assert(title@.subrange(from as int, k + 1) == title@.subrange(from as int, k as int).push(
            title@[k as int],
        ));
        k += 1;
    }
    r
}

/// The characters of `title` that are not marked, in order.
pub fn unmarked(title: &Vec<char>, marks: &Vec<bool>) -> (r: Vec<char>)
    ensures
        r@ == unmarked_upto(title@, marks@, title@.len() as int),
{
    let mut r: Vec<char> = Vec::new();
    let mut i: usize = 0;
    while i < title.len()
        invariant
            i <= title@.len(),
            r@ == unmarked_upto(title@, marks@, i as int),
        decreases title@.len() - i,
    {
        if i >= marks.len() || !marks[i] {
            r.push(title[i]);
        }
        i += 1;
    }
    r
}

/// The first `n` characters of `title` without those that `marks` marks.
pub open spec fn unmarked_upto(title: Seq<char>, marks: Seq<bool>, n: int) -> Seq<char>
    decreases n,
{
    if n <= 0 || n > title.len() {
        Seq::empty()
    } else if n - 1 < marks.len() && marks[n - 1] {
        unmarked_upto(title, marks, n - 1)
    } else {
        unmarked_upto(title, marks, n - 1).push(title[n - 1])
    }
}

/// Where the marks are those of the characters that are taken out, what is
/// not marked is the cleaned title.
proof fn lemma_unmarked_is_kept(title: Seq<char>, marks: Seq<bool>, n: int)
    requires
        marks.len() == title.len(),
        forall|i: int| 0 <= i < title.len() ==> #[trigger] marks[i] == taken_out(title, i),
    ensures
        unmarked_upto(title, marks, n) == kept(title, n),
    decreases n,
{
    if 0 < n <= title.len() {
        lemma_unmarked_is_kept(title, marks, n - 1);
    }
}

/// Cleans a title: each span in round or square brackets whose text holds
/// "offic", in any case, is taken out, and with it one space before it.
pub fn clean(title: &str) -> (r: String)
    ensures
        r@ == cleaned_title(title@),
{
    let chars = chars_of(title);
    let n: usize = chars.len();
    let found = closed_spans(&chars);
    let mut marks: Vec<bool> = Vec::new();
    while marks.len() < n
        invariant
            marks@.len() <= n,
            forall|i: int| 0 <= i < marks@.len() ==> !(#[trigger] marks@[i]),
        decreases n - marks@.len(),
    {
        marks.push(false);
    }
    let mut k: usize = 0;
    while k < found.len()
        invariant
            k <= found@.len(),
            n == chars@.len(),
            chars@ == title@,
            marks@.len() == n,
            forall|j: int|
                0 <= j < found@.len() ==> (#[trigger] found@[j]).0 < found@[j].1 <= chars@.len(),
            forall|i: int|
                0 <= i < n ==> #[trigger] marks@[i] == exists|j: int|
                    0 <= j < k && is_marked(
                        title@,
                        (#[trigger] found@[j]).0 as int,
                        found@[j].1 as int,
                    ) && goes_with(title@, i, found@[j].0 as int, found@[j].1 as int),
        decreases found@.len() - k,
    {
        let (from, to) = found[k];
        let span = slice_of(&chars, from, to);
        let text = string_from_chars(&span);
        let lowered = chars_of(to_lowercase(text.as_str()).as_str());
        let ghost before = marks@;
        mark_span(&mut marks, &chars, from, to, &lowered);
        proof {
            assert forall|i: int| 0 <= i < n implies #[trigger] marks@[i] == exists|j: int|
                0 <= j < k + 1 && is_marked(
                    title@,
                    (#[trigger] found@[j]).0 as int,
                    found@[j].1 as int,
                ) && goes_with(title@, i, found@[j].0 as int, found@[j].1 as int) by {
                let here = is_marked(title@, from as int, to as int) && goes_with(
                    title@,
                    i,
                    from as int,
                    to as int,
                );
                assert(marks@[i] == (before[i] || here));
                if here {
                    assert(found@[k as int] == (from, to));
                }
                if before[i] {
                    let j = choose|j: int|
                        0 <= j < k && is_marked(
                            title@,
                            (#[trigger] found@[j]).0 as int,
                            found@[j].1 as int,
                        ) && goes_with(title@, i, found@[j].0 as int, found@[j].1 as int);
                    assert(0 <= j < k + 1);
                }
            }
        }
        k += 1;
    }
    proof {
        lemma_spans(title@, n as int);
        let all = spans(title@, n as int);
        assert forall|i: int| 0 <= i < n implies #[trigger] marks@[i] == taken_out(title@, i) by {
            if marks@[i] {
                let j = choose|j: int|
                    0 <= j < found@.len() && is_marked(
                        title@,
                        (#[trigger] found@[j]).0 as int,
                        found@[j].1 as int,
                    ) && goes_with(title@, i, found@[j].0 as int, found@[j].1 as int);
                assert(is_span(title@, found@[j].0 as int, found@[j].1 as int));
            }
            if taken_out(title@, i) {
                let (from, to) = choose|from: int, to: int|
                    is_span(title@, from, to) && is_marked(title@, from, to) && goes_with(
                        title@,
                        i,
                        from,
                        to,
                    );
                assert(all.contains((from, to)));
                let j = choose|j: int| 0 <= j < all.len() && all[j] == (from, to);
                assert(bounds(found@)[j] == (found@[j].0 as int, found@[j].1 as int));
            }
        }
        lemma_unmarked_is_kept(title@, marks@, n as int);
    }
    let cleaned = unmarked(&chars, &marks);
    string_from_chars(&cleaned)
}

} // verus!
