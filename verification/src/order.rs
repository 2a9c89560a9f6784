//! The order of texts: by their UTF-8 bytes, which is the order of their
//! code points, and an absent text before every present one.

use vstd::prelude::*;
use vstd::utf8::*;

verus! {

/// How one value stands to another.
#[derive(Clone, Copy, Debug, PartialEq, Eq, Structural)]
pub enum Order {
    /// The first comes before the second.
    Less,
    /// Neither comes before the other.
    Equal,
    /// The first comes after the second.
    Greater,
}

/// How `a` stands to `b` byte by byte; a proper prefix comes first.
pub open spec fn lex(a: Seq<u8>, b: Seq<u8>) -> Order
    decreases a.len(),
{
    if a.len() == 0 {
        if b.len() == 0 {
            Order::Equal
        } else {
            Order::Less
        }
    } else if b.len() == 0 {
        Order::Greater
    } else if a[0] < b[0] {
        Order::Less
    } else if a[0] > b[0] {
        Order::Greater
    } else {
        lex(a.drop_first(), b.drop_first())
    }
}

/// How the text `a` stands to the text `b`.
pub open spec fn text_order(a: Seq<char>, b: Seq<char>) -> Order {
    lex(encode_utf8(a), encode_utf8(b))
}

/// How two texts that may be absent stand to each other.
pub open spec fn option_order(a: Option<Seq<char>>, b: Option<Seq<char>>) -> Order {
    match (a, b) {
        (None, None) => Order::Equal,
        (None, Some(_)) => Order::Less,
        (Some(_), None) => Order::Greater,
        (Some(x), Some(y)) => text_order(x, y),
    }
}

/// Byte sequences stand equal exactly when they are the same, the order
/// turns round with its arguments, and it carries over a middle term.
pub proof fn lemma_lex(a: Seq<u8>, b: Seq<u8>, c: Seq<u8>)
    ensures
        lex(a, b) == Order::Equal <==> a == b,
        lex(a, b) == Order::Less <==> lex(b, a) == Order::Greater,
        lex(a, b) == Order::Less && lex(b, c) != Order::Greater ==> lex(a, c) == Order::Less,
        lex(a, b) != Order::Greater && lex(b, c) == Order::Less ==> lex(a, c) == Order::Less,
    decreases a.len() + b.len() + c.len(),
{
    if a.len() > 0 && b.len() > 0 {
        if c.len() > 0 {
            lemma_lex(a.drop_first(), b.drop_first(), c.drop_first());
        } else {
            lemma_lex(a.drop_first(), b.drop_first(), c);
        }
        if a[0] == b[0] && lex(a.drop_first(), b.drop_first()) == Order::Equal {
            assert(a =~= seq![a[0]] + a.drop_first());
            assert(b =~= seq![b[0]] + b.drop_first());
        }
    } else if a.len() == 0 && b.len() == 0 {
        assert(a =~= b);
    }
}

/// Texts stand equal exactly when they are the same, the order turns round
/// with its arguments, and it carries over a middle term.
pub proof fn lemma_text_order(a: Seq<char>, b: Seq<char>, c: Seq<char>)
    ensures
        text_order(a, b) == Order::Equal <==> a == b,
        text_order(a, b) == Order::Less <==> text_order(b, a) == Order::Greater,
        text_order(a, b) == Order::Less && text_order(b, c) != Order::Greater ==> text_order(a, c)
            == Order::Less,
        text_order(a, b) != Order::Greater && text_order(b, c) == Order::Less ==> text_order(a, c)
            == Order::Less,
{
    lemma_lex(encode_utf8(a), encode_utf8(b), encode_utf8(c));
    encode_utf8_decode_utf8(a);
    encode_utf8_decode_utf8(b);
}

/// The same for texts that may be absent.
pub proof fn lemma_option_order(
    a: Option<Seq<char>>,
    b: Option<Seq<char>>,
    c: Option<Seq<char>>,
)
    ensures
        option_order(a, b) == Order::Equal <==> a == b,
        option_order(a, b) == Order::Less <==> option_order(b, a) == Order::Greater,
        option_order(a, b) == Order::Less && option_order(b, c) != Order::Greater ==> option_order(
            a,
            c,
        ) == Order::Less,
        option_order(a, b) != Order::Greater && option_order(b, c) == Order::Less ==> option_order(
            a,
            c,
        ) == Order::Less,
{
    let x = if a is Some { a->0 } else { Seq::<char>::empty() };
    let y = if b is Some { b->0 } else { Seq::<char>::empty() };
    let z = if c is Some { c->0 } else { Seq::<char>::empty() };
    lemma_text_order(x, y, z);
}

/// How the bytes `a` stand to the bytes `b`.
pub fn compare_bytes(a: &[u8], b: &[u8]) -> (r: Order)
    ensures
        r == lex(a@, b@),
{
    let n: usize = a.len();
    let m: usize = b.len();
    let mut i: usize = 0;
    assert(a@.subrange(0, n as int) == a@);
    assert(b@.subrange(0, m as int) == b@);
    while i < n && i < m
        invariant
            n == a@.len(),
            m == b@.len(),
            i <= n,
            i <= m,
            lex(a@, b@) == lex(a@.subrange(i as int, n as int), b@.subrange(i as int, m as int)),
        decreases n - i,
    {
        let ghost ra = a@.subrange(i as int, n as int);
        let ghost rb = b@.subrange(i as int, m as int);
        assert(ra[0] == a@[i as int] && rb[0] == b@[i as int]);
        if a[i] < b[i] {
            return Order::Less;
        }
        if a[i] > b[i] {
            return Order::Greater;
        }
        assert(ra.drop_first() == a@.subrange(i + 1, n as int));
        assert(rb.drop_first() == b@.subrange(i + 1, m as int));
        i += 1;
    }
    if i < m {
        Order::Less
    } else if i < n {
        Order::Greater
    } else {
        Order::Equal
    }
}

/// How the text `a` stands to the text `b`, as `str`'s own order has it.
pub fn compare_text(a: &str, b: &str) -> (r: Order)
    ensures
        r == text_order(a@, b@),
{
    compare_bytes(a.as_bytes(), b.as_bytes())
}

/// How two texts that may be absent stand to each other, as `Option`'s own
/// order has it.
pub fn compare_option(a: &Option<String>, b: &Option<String>) -> (r: Order)
    ensures
        r == option_order(
            match a {
                Some(s) => Some(s@),
                None => None,
            },
            match b {
                Some(s) => Some(s@),
                None => None,
            },
        ),
{
    match (a, b) {
        (None, None) => Order::Equal,
        (None, Some(_)) => Order::Less,
        (Some(_), None) => Order::Greater,
        (Some(x), Some(y)) => compare_text(x.as_str(), y.as_str()),
    }
}

/// Whether two texts hold the same characters.
pub fn same_text(a: &str, b: &str) -> (r: bool)
    ensures
        r == (a@ == b@),
{
    proof {
        lemma_text_order(a@, b@, a@);
    }
    compare_text(a, b) == Order::Equal
}

} // verus!
