//! Sequences of characters: the text operations that titles, authors and
//! request fields need, each with an exact statement of its result.

use vstd::prelude::*;

verus! {

/// Whether `char::is_whitespace` holds of `c`: the character has the Unicode
/// property `White_Space`.
pub uninterp spec fn is_whitespace(c: char) -> bool;

/// What `str::to_lowercase` returns for a string with the characters `s`.
pub uninterp spec fn lowercase(s: Seq<char>) -> Seq<char>;

/// `s` without its leading whitespace.
pub open spec fn trim_start(s: Seq<char>) -> Seq<char>
    decreases s.len(),
{
    if s.len() > 0 && is_whitespace(s.first()) {
        trim_start(s.drop_first())
    } else {
        s
    }
}

/// `s` without its trailing whitespace.
pub open spec fn trim_end(s: Seq<char>) -> Seq<char>
    decreases s.len(),
{
    if s.len() > 0 && is_whitespace(s.last()) {
        trim_end(s.drop_last())
    } else {
        s
    }
}

/// `s` without its leading and trailing whitespace.
pub open spec fn trim(s: Seq<char>) -> Seq<char> {
    trim_end(trim_start(s))
}

/// Every character of `s` from `from` up to `to` is whitespace.
pub open spec fn all_whitespace(s: Seq<char>, from: int, to: int) -> bool {
    forall|k: int| from <= k < to ==> is_whitespace(#[trigger] s[k])
}

/// `pat` stands in `s` at index `i`.
pub open spec fn occurs_at(s: Seq<char>, pat: Seq<char>, i: int) -> bool {
    0 <= i && i + pat.len() <= s.len() && s.subrange(i, i + pat.len()) == pat
}

/// `pat` stands somewhere in `s`.
pub open spec fn contains(s: Seq<char>, pat: Seq<char>) -> bool {
    exists|i: int| occurs_at(s, pat, i)
}

/// Calls `char::is_whitespace`, which tests the Unicode property
/// `White_Space`; the result is the named property of the character.
#[verifier::external_body]
fn char_is_whitespace(c: char) -> (r: bool)
    ensures
        r == is_whitespace(c),
{
    c.is_whitespace()
}

/// Calls `str::to_lowercase`; the result is the named lowercase form of the
/// argument's characters.
#[verifier::external_body]
pub(crate) fn to_lowercase(s: &str) -> (r: String)
    ensures
        r@ == lowercase(s@),
{
    s.to_lowercase()
}

/// Collects characters into a `String` with `Iterator::collect`; the string
/// holds exactly those characters, in order.
#[verifier::external_body]
pub(crate) fn string_from_chars(v: &Vec<char>) -> (r: String)
    ensures
        r@ == v@,
{
    v.iter().collect()
}

/// The characters of `s`, in order.
pub fn chars_of(s: &str) -> (v: Vec<char>)
    ensures
        v@ == s@,
{
    let mut v: Vec<char> = Vec::new();
    for c in it: s.chars()
        invariant
            it.seq() == s@,
            v@ == s@.take(it.index() as int),
    {
        v.push(c);
        assert(v@ == s@.take(it.index() + 1));
    }
    assert(s@.take(s@.len() as int) == s@);
    v
}

/// Trimming leaves what stands between the first and the last character that
/// is no whitespace.
pub proof fn lemma_trim_is_subrange(s: Seq<char>, a: int, b: int)
    requires
        0 <= a <= b <= s.len(),
        all_whitespace(s, 0, a),
        all_whitespace(s, b, s.len() as int),
        a < b ==> !is_whitespace(s[a]) && !is_whitespace(s[b - 1]),
        a == b ==> a == s.len(),
    ensures
        trim(s) == s.subrange(a, b),
{
    lemma_trim_start_is_suffix(s, a);
    let t = s.subrange(a, s.len() as int);
    assert(trim_start(s) == t);
    lemma_trim_end_is_prefix(t, b - a);
    assert(t.subrange(0, b - a) == s.subrange(a, b));
}

proof fn lemma_trim_start_is_suffix(s: Seq<char>, a: int)
    requires
        0 <= a <= s.len(),
        all_whitespace(s, 0, a),
        a < s.len() ==> !is_whitespace(s[a]),
    ensures
        trim_start(s) == s.subrange(a, s.len() as int),
    decreases a,
{
    if a == 0 {
        assert(s.subrange(0, s.len() as int) == s);
    } else {
        assert(is_whitespace(s[0]));
        let rest = s.drop_first();
        assert forall|k: int| 0 <= k < a - 1 implies is_whitespace(#[trigger] rest[k]) by {
            assert(rest[k] == s[k + 1]);
        }
        lemma_trim_start_is_suffix(rest, a - 1);
        assert(rest.subrange(a - 1, rest.len() as int) == s.subrange(a, s.len() as int));
    }
}

proof fn lemma_trim_end_is_prefix(s: Seq<char>, b: int)
    requires
        0 <= b <= s.len(),
        all_whitespace(s, b, s.len() as int),
        0 < b ==> !is_whitespace(s[b - 1]),
    ensures
        trim_end(s) == s.subrange(0, b),
    decreases s.len() - b,
{
    if b == s.len() {
        assert(s.subrange(0, s.len() as int) == s);
    } else {
        assert(is_whitespace(s[s.len() - 1]));
        let rest = s.drop_last();
        assert forall|k: int| b <= k < rest.len() implies is_whitespace(#[trigger] rest[k]) by {
            assert(rest[k] == s[k]);
        }
        lemma_trim_end_is_prefix(rest, b);
        assert(rest.subrange(0, b) == s.subrange(0, b));
    }
}

/// The bounds of what trimming leaves of `v`: the index of the first
/// character that is no whitespace, and the index behind the last one.
pub fn trim_bounds(v: &Vec<char>) -> (r: (usize, usize))
    ensures
        r.0 <= r.1 <= v@.len(),
        trim(v@) == v@.subrange(r.0 as int, r.1 as int),
{
    let n: usize = v.len();
    let mut a: usize = 0;
    while a < n && char_is_whitespace(v[a])
        invariant
            n == v@.len(),
            a <= n,
            all_whitespace(v@, 0, a as int),
        decreases n - a,
    {
        a += 1;
    }
    let mut b: usize = n;
    while b > a && char_is_whitespace(v[b - 1])
        invariant
            n == v@.len(),
            a <= b <= n,
            all_whitespace(v@, b as int, n as int),
        decreases b,
    {
        b -= 1;
    }
    proof {
        if a == b && a < n {
            // the first loop stopped at a character that is no whitespace
            assert(!is_whitespace(v@[a as int]));
            assert(b < n ==> is_whitespace(v@[b as int]));
            assert(false);
        }
        lemma_trim_is_subrange(v@, a as int, b as int);
    }
    (a, b)
}

/// `s` without its leading and trailing whitespace, as `str::trim` gives it.
pub fn trimmed(s: &str) -> (r: &str)
    ensures
        r@ == trim(s@),
{
    let v = chars_of(s);
    let (a, b) = trim_bounds(&v);
    s.substring_char(a, b)
}

/// Trimming twice gives what trimming once gives.
pub proof fn lemma_trim_idempotent(s: Seq<char>)
    ensures
        trim(trim(s)) == trim(s),
{
    let (a, b) = trim_witness(s);
    let t = s.subrange(a, b);
    assert(trim(s) == t);
    if a < b {
        assert(t[0] == s[a]);
        assert(t[t.len() - 1] == s[b - 1]);
        lemma_trim_is_subrange(t, 0, t.len() as int);
        assert(t.subrange(0, t.len() as int) == t);
    } else {
        lemma_trim_is_subrange(t, 0, 0);
    }
}

/// Bounds as `trim_bounds` computes them exist for every sequence.
proof fn trim_witness(s: Seq<char>) -> (r: (int, int))
    ensures
        0 <= r.0 <= r.1 <= s.len(),
        all_whitespace(s, 0, r.0),
        all_whitespace(s, r.1, s.len() as int),
        r.0 < r.1 ==> !is_whitespace(s[r.0]) && !is_whitespace(s[r.1 - 1]),
        r.0 == r.1 ==> r.0 == s.len(),
        trim(s) == s.subrange(r.0, r.1),
{
    let a = leading_whitespace(s, 0);
    let b = if a == s.len() { a } else { trailing_whitespace(s, s.len() as int, a) };
    lemma_trim_is_subrange(s, a, b);
    (a, b)
}

proof fn leading_whitespace(s: Seq<char>, from: int) -> (a: int)
    requires
        0 <= from <= s.len(),
        all_whitespace(s, 0, from),
    ensures
        from <= a <= s.len(),
        all_whitespace(s, 0, a),
        a < s.len() ==> !is_whitespace(s[a]),
    decreases s.len() - from,
{
    if from < s.len() && is_whitespace(s[from]) {
        leading_whitespace(s, from + 1)
    } else {
        from
    }
}

proof fn trailing_whitespace(s: Seq<char>, to: int, floor: int) -> (b: int)
    requires
        0 <= floor < to <= s.len(),
        !is_whitespace(s[floor]),
        all_whitespace(s, to, s.len() as int),
    ensures
        floor < b <= s.len(),
        all_whitespace(s, b, s.len() as int),
        !is_whitespace(s[b - 1]),
    decreases to,
{
    if is_whitespace(s[to - 1]) {
        trailing_whitespace(s, to - 1, floor)
    } else {
        to
    }
}

/// Whether `pat` stands in `s` at index `i`.
pub fn matches_at(s: &Vec<char>, pat: &Vec<char>, i: usize) -> (r: bool)
    ensures
        r == occurs_at(s@, pat@, i as int),
{
    let n: usize = s.len();
    let m: usize = pat.len();
    if i > n || m > n - i {
        return false;
    }
    let mut k: usize = 0;
    while k < m
        invariant
            n == s@.len(),
            m == pat@.len(),
            i + m <= n,
            k <= m,
            forall|j: int| 0 <= j < k ==> s@[i + j] == pat@[j],
        decreases m - k,
    {
        if s[i + k] != pat[k] {
            proof {
                assert(s@.subrange(i as int, i + m)[k as int] == s@[i + k]);
            }
            return false;
        }
        k += 1;
    }
    assert(s@.subrange(i as int, i + m) =~= pat@);
    true
}

/// Whether `pat` stands somewhere in `s`, as `str::contains` tells it.
pub fn contains_chars(s: &Vec<char>, pat: &Vec<char>) -> (r: bool)
    ensures
        r == contains(s@, pat@),
{
    let n: usize = s.len();
    let m: usize = pat.len();
    if m > n {
        assert(forall|i: int| !occurs_at(s@, pat@, i));
        return false;
    }
    let last: usize = n - m;
    let mut i: usize = 0;
    while i < last
        invariant
            n == s@.len(),
            m == pat@.len(),
            last == n - m,
            i <= last,
            forall|j: int| 0 <= j < i ==> !occurs_at(s@, pat@, j),
        decreases last - i,
    {
        if matches_at(s, pat, i) {
            return true;
        }
        i += 1;
    }
    if matches_at(s, pat, last) {
        return true;
    }
    assert(forall|j: int| !occurs_at(s@, pat@, j));
    false
}

/// The character that writes the digit `d`.
pub open spec fn digit(d: nat) -> char {
    if d == 0 {
        '0'
    } else if d == 1 {
        '1'
    } else if d == 2 {
        '2'
    } else if d == 3 {
        '3'
    } else if d == 4 {
        '4'
    } else if d == 5 {
        '5'
    } else if d == 6 {
        '6'
    } else if d == 7 {
        '7'
    } else if d == 8 {
        '8'
    } else {
        '9'
    }
}

/// The digit that `c` writes, if it writes one.
pub open spec fn digit_value(c: char) -> Option<nat> {
    if c == '0' {
        Some(0)
    } else if c == '1' {
        Some(1)
    } else if c == '2' {
        Some(2)
    } else if c == '3' {
        Some(3)
    } else if c == '4' {
        Some(4)
    } else if c == '5' {
        Some(5)
    } else if c == '6' {
        Some(6)
    } else if c == '7' {
        Some(7)
    } else if c == '8' {
        Some(8)
    } else if c == '9' {
        Some(9)
    } else {
        None
    }
}

/// `n` written in decimal, without sign or leading zeros.
pub open spec fn decimal(n: nat) -> Seq<char>
    decreases n,
{
    if n < 10 {
        seq![digit(n)]
    } else {
        decimal(n / 10).push(digit(n % 10))
    }
}

/// The number that the decimal digits `s` write; `None` where a character is
/// no digit. The empty sequence writes zero.
pub open spec fn digits_value(s: Seq<char>) -> Option<nat>
    decreases s.len(),
{
    if s.len() == 0 {
        Some(0)
    } else {
        match (digits_value(s.drop_last()), digit_value(s.last())) {
            (Some(high), Some(low)) => Some(10 * high + low),
            _ => None,
        }
    }
}

/// The number that `s` writes as `u64::from_str` reads it: an optional `+`,
/// then one digit or more and nothing else, with a value that fits.
pub open spec fn parse_u64(s: Seq<char>) -> Option<u64> {
    let body = if s.len() > 0 && s[0] == '+' {
        s.drop_first()
    } else {
        s
    };
    if body.len() == 0 {
        None
    } else {
        match digits_value(body) {
            Some(v) => if v <= u64::MAX {
                Some(v as u64)
            } else {
                None
            },
            None => None,
        }
    }
}

fn digit_of(d: u64) -> (c: char)
    requires
        d < 10,
    ensures
        c == digit(d as nat),
{
    if d == 0 {
        '0'
    } else if d == 1 {
        '1'
    } else if d == 2 {
        '2'
    } else if d == 3 {
        '3'
    } else if d == 4 {
        '4'
    } else if d == 5 {
        '5'
    } else if d == 6 {
        '6'
    } else if d == 7 {
        '7'
    } else if d == 8 {
        '8'
    } else {
        '9'
    }
}

fn value_of_digit(c: char) -> (d: Option<u64>)
    ensures
        match d {
            Some(v) => digit_value(c) == Some(v as nat) && v < 10,
            None => digit_value(c) is None,
        },
{
    if c == '0' {
        Some(0)
    } else if c == '1' {
        Some(1)
    } else if c == '2' {
        Some(2)
    } else if c == '3' {
        Some(3)
    } else if c == '4' {
        Some(4)
    } else if c == '5' {
        Some(5)
    } else if c == '6' {
        Some(6)
    } else if c == '7' {
        Some(7)
    } else if c == '8' {
        Some(8)
    } else if c == '9' {
        Some(9)
    } else {
        None
    }
}

/// The decimal digits of `n`.
pub fn decimal_chars(n: u64) -> (v: Vec<char>)
    ensures
        v@ == decimal(n as nat),
    decreases n,
{
    if n < 10 {
        let mut v: Vec<char> = Vec::new();
        v.push(digit_of(n));
        assert(v@ == seq![digit(n as nat)]);
        v
    } else {
        let mut v = decimal_chars(n / 10);
        v.push(digit_of(n % 10));
        v
    }
}

/// `n` written in decimal, as `u64::to_string` writes it.
pub fn decimal_string(n: u64) -> (r: String)
    ensures
        r@ == decimal(n as nat),
{
    let v = decimal_chars(n);
    string_from_chars(&v)
}

/// What is written of a number is read as that number: it holds digits
/// only, and at least one.
pub proof fn lemma_decimal_is_read_back(n: nat)
    ensures
        digits_value(decimal(n)) == Some(n),
        decimal(n).len() > 0,
        forall|i: int| 0 <= i < decimal(n).len() ==> digit_value(#[trigger] decimal(n)[i]) is Some,
    decreases n,
{
    if n < 10 {
        let s = decimal(n);
        assert(s.drop_last() == Seq::<char>::empty());
        assert(digits_value(s.drop_last()) == Some(0nat));
    } else {
        lemma_decimal_is_read_back(n / 10);
        let s = decimal(n);
        assert(s.drop_last() == decimal(n / 10));
        assert(s.last() == digit(n % 10));
        assert forall|i: int| 0 <= i < s.len() implies digit_value(#[trigger] s[i]) is Some by {
            if i < s.len() - 1 {
                assert(s[i] == decimal(n / 10)[i]);
            }
        }
    }
}

/// A number is read from what was written of it.
pub proof fn lemma_parse_reads_decimal(n: u64)
    ensures
        parse_u64(decimal(n as nat)) == Some(n),
{
    lemma_decimal_is_read_back(n as nat);
    assert(digit_value(decimal(n as nat)[0]) is Some);
}

/// A prefix of digits writes no more than the whole, and a character that is
/// no digit spoils every sequence it stands in.
proof fn lemma_digits_prefix(s: Seq<char>, k: int)
    requires
        0 <= k <= s.len(),
    ensures
        digits_value(s.take(k)) is None ==> digits_value(s) is None,
        digits_value(s) is Some ==> digits_value(s.take(k))->0 <= digits_value(s)->0,
    decreases s.len() - k,
{
    if k == s.len() {
        assert(s.take(k) == s);
    } else {
        lemma_digits_prefix(s.drop_last(), k);
        assert(s.drop_last().take(k) == s.take(k));
    }
}

/// Reads an unsigned decimal number: an optional `+`, then digits only.
/// `None` where `s` is empty, holds another character, or writes a number
/// above `u64::MAX`.
pub fn parse_decimal(s: &str) -> (r: Option<u64>)
    ensures
        r == parse_u64(s@),
{
    let v = chars_of(s);
    let n: usize = v.len();
    let start: usize = if n > 0 && v[0] == '+' {
        1
    } else {
        0
    };
    if start == n {
        return None;
    }
    let ghost body = v@.subrange(start as int, n as int);
    let mut acc: u64 = 0;
    let mut i: usize = start;
    assert(body.take(0) == Seq::<char>::empty());
    assert(body == if s@.len() > 0 && s@[0] == '+' {
        s@.drop_first()
    } else {
        s@
    });
    while i < n
        invariant
            n == v@.len(),
            start <= i <= n,
            start < n,
            body == v@.subrange(start as int, n as int),
            parse_u64(s@) == match digits_value(body) {
                Some(v) => if v <= u64::MAX {
                    Some(v as u64)
                } else {
                    None
                },
                None => None,
            },
            digits_value(body.take(i - start)) == Some(acc as nat),
        decreases n - i,
    {
        let ghost prefix = body.take(i - start + 1);
        proof {
            assert(prefix.drop_last() == body.take(i - start));
            assert(prefix.last() == v@[i as int]);
            lemma_digits_prefix(body, i - start + 1);
        }
        match value_of_digit(v[i]) {
            None => {
                return None;
            },
            Some(d) => {
                if acc > (u64::MAX - d) / 10 {
                    return None;
                }
                acc = acc * 10 + d;
            },
        }
        i += 1;
    }
    assert(body.take(n - start) == body);
    Some(acc)
}

/// `a` followed by `b`.
pub fn joined(a: &str, b: &str) -> (r: String)
    ensures
        r@ == a@ + b@,
{
    let mut r = a.to_owned();
    r.append(b);
    r
}

/// `s` ends with `suffix`.
pub open spec fn ends_with(s: Seq<char>, suffix: Seq<char>) -> bool {
    suffix.len() <= s.len() && s.subrange(s.len() - suffix.len(), s.len() as int) == suffix
}

/// `s` without `suffix` at its end, once; `s` itself where it does not end
/// with `suffix`.
pub open spec fn without_suffix(s: Seq<char>, suffix: Seq<char>) -> Seq<char> {
    if ends_with(s, suffix) {
        s.subrange(0, s.len() - suffix.len())
    } else {
        s
    }
}

/// `s` without `suffix` at its end.
pub fn strip_suffix(s: &str, suffix: &str) -> (r: String)
    ensures
        r@ == without_suffix(s@, suffix@),
{
    let chars = chars_of(s);
    let tail = chars_of(suffix);
    let n: usize = chars.len();
    let m: usize = tail.len();
    if m <= n && matches_at(&chars, &tail, n - m) {
        s.substring_char(0, n - m).to_owned()
    } else {
        s.to_owned()
    }
}

/// `s` without one line ending at its end: a line feed is taken off, then a
/// carriage return, each where it is there.
pub open spec fn without_line_ending(s: Seq<char>) -> Seq<char> {
    let t = if s.len() > 0 && s.last() == '\n' {
        s.drop_last()
    } else {
        s
    };
    if t.len() > 0 && t.last() == '\r' {
        t.drop_last()
    } else {
        t
    }
}

/// A line as it was read, without the line ending.
pub fn strip_line_ending(line: &str) -> (r: String)
    ensures
        r@ == without_line_ending(line@),
{
    let chars = chars_of(line);
    let mut end: usize = chars.len();
    if end > 0 && chars[end - 1] == '\n' {
        end -= 1;
        assert(chars@.drop_last() == chars@.subrange(0, end as int));
    } else {
        assert(chars@ == chars@.subrange(0, end as int));
    }
    let ghost t = chars@.subrange(0, end as int);
    if end > 0 && chars[end - 1] == '\r' {
        end -= 1;
        assert(t.drop_last() == chars@.subrange(0, end as int));
    }
    line.substring_char(0, end).to_owned()
}

} // verus!
