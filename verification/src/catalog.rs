//! The catalog: its total order, the sort that establishes it, and the merge
//! of an existing catalog with what the platforms gave.

use crate::music::{dedup, dedup_counted, distinct_keys, key, lemma_dedup_keys, views, Music, MusicView};
use crate::order::{
    compare_option, compare_text, lemma_option_order, lemma_text_order, option_order, text_order,
    Order,
};
use vstd::multiset::Multiset;
use vstd::prelude::*;
use vstd::relations::{sorted_by, total_ordering};
use vstd::seq_lib::{
    lemma_multiset_commutative, lemma_sorted_unique, to_multiset_build, to_multiset_contains,
    to_multiset_remove,
};

verus! {

/// How the record `a` stands to the record `b`: by author, then title, then
/// url, thumbnail, date and album.
pub open spec fn music_order(a: MusicView, b: MusicView) -> Order {
    if text_order(a.author, b.author) != Order::Equal {
        text_order(a.author, b.author)
    } else if text_order(a.title, b.title) != Order::Equal {
        text_order(a.title, b.title)
    } else if option_order(a.url, b.url) != Order::Equal {
        option_order(a.url, b.url)
    } else if option_order(a.thumbnail, b.thumbnail) != Order::Equal {
        option_order(a.thumbnail, b.thumbnail)
    } else if option_order(a.date, b.date) != Order::Equal {
        option_order(a.date, b.date)
    } else {
        option_order(a.album, b.album)
    }
}

/// `a` does not come after `b`.
pub open spec fn music_le(a: MusicView, b: MusicView) -> bool {
    music_order(a, b) != Order::Greater
}

/// No record of `s` comes after a later one.
pub open spec fn sorted(s: Seq<MusicView>) -> bool {
    forall|i: int, j: int| 0 <= i < j < s.len() ==> music_le(#[trigger] s[i], #[trigger] s[j])
}

/// The order of records, as a relation.
pub open spec fn music_leq() -> spec_fn(MusicView, MusicView) -> bool {
    |a: MusicView, b: MusicView| music_le(a, b)
}

/// `s` sorted: the records of `s`, each as often as `s` holds it, none
/// after a later one.
pub open spec fn sort_of(s: Seq<MusicView>) -> Seq<MusicView> {
    s.sort_by(music_leq())
}

/// Records stand equal exactly when they hold the same, the order turns
/// round with its arguments, and it carries over a middle term.
pub proof fn lemma_music_order(a: MusicView, b: MusicView, c: MusicView)
    ensures
        music_order(a, b) == Order::Equal <==> a == b,
        music_order(a, b) == Order::Less <==> music_order(b, a) == Order::Greater,
        music_le(a, b) && music_le(b, c) ==> music_le(a, c),
        music_le(a, b) || music_le(b, a),
{
    lemma_text_order(a.author, b.author, c.author);
    lemma_text_order(b.author, a.author, c.author);
    lemma_text_order(b.author, c.author, a.author);
    lemma_text_order(a.author, c.author, b.author);
    lemma_text_order(a.title, b.title, c.title);
    lemma_text_order(b.title, a.title, c.title);
    lemma_text_order(b.title, c.title, a.title);
    lemma_text_order(a.title, c.title, b.title);
    lemma_option_order(a.url, b.url, c.url);
    lemma_option_order(b.url, a.url, c.url);
    lemma_option_order(b.url, c.url, a.url);
    lemma_option_order(a.url, c.url, b.url);
    lemma_option_order(a.thumbnail, b.thumbnail, c.thumbnail);
    lemma_option_order(b.thumbnail, a.thumbnail, c.thumbnail);
    lemma_option_order(b.thumbnail, c.thumbnail, a.thumbnail);
    lemma_option_order(a.thumbnail, c.thumbnail, b.thumbnail);
    lemma_option_order(a.date, b.date, c.date);
    lemma_option_order(b.date, a.date, c.date);
    lemma_option_order(b.date, c.date, a.date);
    lemma_option_order(a.date, c.date, b.date);
    lemma_option_order(a.album, b.album, c.album);
    lemma_option_order(b.album, a.album, c.album);
    lemma_option_order(b.album, c.album, a.album);
    lemma_option_order(a.album, c.album, b.album);
}

/// How the record `a` stands to the record `b`.
pub fn compare_music(a: &Music, b: &Music) -> (r: Order)
    ensures
        r == music_order(a@, b@),
{
    let by_author = compare_text(a.author.as_str(), b.author.as_str());
    if by_author != Order::Equal {
        return by_author;
    }
    let by_title = compare_text(a.title.as_str(), b.title.as_str());
    if by_title != Order::Equal {
        return by_title;
    }
    let by_url = compare_option(&a.url, &b.url);
    if by_url != Order::Equal {
        return by_url;
    }
    let by_thumbnail = compare_option(&a.thumbnail, &b.thumbnail);
    if by_thumbnail != Order::Equal {
        return by_thumbnail;
    }
    let by_date = compare_option(&a.date, &b.date);
    if by_date != Order::Equal {
        return by_date;
    }
    compare_option(&a.album, &b.album)
}

/// No record of `s` comes before a later one.
pub open spec fn descending(s: Seq<MusicView>) -> bool {
    forall|i: int, j: int| 0 <= i < j < s.len() ==> music_le(#[trigger] s[j], #[trigger] s[i])
}

/// No record of `a` comes after a record of `b`.
pub open spec fn below(a: Seq<MusicView>, b: Seq<MusicView>) -> bool {
    forall|i: int, k: int|
        0 <= i < a.len() && 0 <= k < b.len() ==> music_le(#[trigger] a[i], #[trigger] b[k])
}

/// Moves the last record of `from` to the end of `onto`.
fn move_last(from: &mut Vec<Music>, onto: &mut Vec<Music>)
    requires
        old(from)@.len() > 0,
    ensures
        final(from)@.len() == old(from)@.len() - 1,
        views(final(from)@) == views(old(from)@).drop_last(),
        views(final(onto)@) == views(old(onto)@).push(views(old(from)@).last()),
{
    let ghost source = views(from@);
    let ghost target = views(onto@);
    match from.pop() {
        Some(music) => {
            onto.push(music);
            assert(views(from@) == source.drop_last());
            assert(views(onto@) == target.push(source.last()));
        },
        None => {},
    }
}

/// Moving the last record of one list to another leaves the records of the
/// two together as they were.
proof fn lemma_moved(from: Seq<MusicView>, onto: Seq<MusicView>, rest: Multiset<MusicView>)
    requires
        from.len() > 0,
    ensures
        onto.push(from.last()).to_multiset().add(from.drop_last().to_multiset().add(rest))
            == onto.to_multiset().add(from.to_multiset().add(rest)),
        onto.push(from.last()).to_multiset().add(rest.add(from.drop_last().to_multiset()))
            == onto.to_multiset().add(rest.add(from.to_multiset())),
{
    broadcast use vstd::multiset::group_multiset_axioms;

    assert(from.drop_last().push(from.last()) == from);
    to_multiset_build(from.drop_last(), from.last());
    to_multiset_build(onto, from.last());
    assert(onto.push(from.last()).to_multiset().add(from.drop_last().to_multiset().add(rest))
        =~= onto.to_multiset().add(from.to_multiset().add(rest)));
    assert(onto.push(from.last()).to_multiset().add(rest.add(from.drop_last().to_multiset()))
        =~= onto.to_multiset().add(rest.add(from.to_multiset())));
}

/// Of two sorted lists that stand below a descending one, the larger of the
/// two last records can be put behind the descending list: it stays
/// descending, and what is left of the two stays sorted and below it.
proof fn lemma_larger_goes_down(
    this: Seq<MusicView>,
    other: Seq<MusicView>,
    down: Seq<MusicView>,
)
    requires
        sorted(this),
        sorted(other),
        descending(down),
        below(this, down),
        below(other, down),
        this.len() > 0,
        other.len() == 0 || music_le(other.last(), this.last()),
    ensures
        sorted(this.drop_last()),
        descending(down.push(this.last())),
        below(this.drop_last(), down.push(this.last())),
        below(other, down.push(this.last())),
{
    let x = this.last();
    let rest = this.drop_last();
    let now = down.push(x);
    assert forall|i: int, j: int| 0 <= i < j < rest.len() implies music_le(
        #[trigger] rest[i],
        #[trigger] rest[j],
    ) by {
        assert(rest[i] == this[i] && rest[j] == this[j]);
    }
    assert forall|i: int, j: int| 0 <= i < j < now.len() implies music_le(
        #[trigger] now[j],
        #[trigger] now[i],
    ) by {
        if j == down.len() {
            assert(now[i] == down[i]);
            assert(music_le(this[this.len() - 1], down[i]));
        } else {
            assert(now[i] == down[i] && now[j] == down[j]);
        }
    }
    assert forall|i: int, k: int| 0 <= i < rest.len() && 0 <= k < now.len() implies music_le(
        #[trigger] rest[i],
        #[trigger] now[k],
    ) by {
        assert(rest[i] == this[i]);
        if k == down.len() {
            assert(music_le(this[i], this[this.len() - 1]));
        } else {
            assert(now[k] == down[k]);
            assert(music_le(this[i], down[k]));
        }
    }
    assert forall|i: int, k: int| 0 <= i < other.len() && 0 <= k < now.len() implies music_le(
        #[trigger] other[i],
        #[trigger] now[k],
    ) by {
        if k == down.len() {
            if i < other.len() - 1 {
                assert(music_le(other[i], other[other.len() - 1]));
            } else {
                lemma_music_order(other[i], other[i], other[i]);
            }
            lemma_music_order(other[i], other[other.len() - 1], x);
        } else {
            assert(now[k] == down[k]);
            assert(music_le(other[i], down[k]));
        }
    }
}

/// A descending list turned round, record by record: the smallest of what
/// is left can be put behind what was turned so far.
proof fn lemma_smallest_goes_up(up: Seq<MusicView>, down: Seq<MusicView>)
    requires
        sorted(up),
        descending(down),
        below(up, down),
        down.len() > 0,
    ensures
        sorted(up.push(down.last())),
        descending(down.drop_last()),
        below(up.push(down.last()), down.drop_last()),
{
    let x = down.last();
    let rest = down.drop_last();
    let now = up.push(x);
    assert forall|i: int, j: int| 0 <= i < j < now.len() implies music_le(
        #[trigger] now[i],
        #[trigger] now[j],
    ) by {
        if j == up.len() {
            assert(now[i] == up[i]);
            assert(music_le(up[i], down[down.len() - 1]));
        } else {
            assert(now[i] == up[i] && now[j] == up[j]);
        }
    }
    assert forall|i: int, j: int| 0 <= i < j < rest.len() implies music_le(
        #[trigger] rest[j],
        #[trigger] rest[i],
    ) by {
        assert(rest[i] == down[i] && rest[j] == down[j]);
    }
    assert forall|i: int, k: int| 0 <= i < now.len() && 0 <= k < rest.len() implies music_le(
        #[trigger] now[i],
        #[trigger] rest[k],
    ) by {
        assert(rest[k] == down[k]);
        if i == up.len() {
            assert(music_le(down[down.len() - 1], down[k]));
        } else {
            assert(now[i] == up[i]);
            assert(music_le(up[i], down[k]));
        }
    }
}

/// Merges two sorted lists into one: the result is sorted and holds the
/// records of both, each as often as the two together hold it.
fn merge_sorted(left: Vec<Music>, right: Vec<Music>) -> (r: Vec<Music>)
    requires
        sorted(views(left@)),
        sorted(views(right@)),
    ensures
        sorted(views(r@)),
        views(r@).to_multiset() == views(left@).to_multiset().add(views(right@).to_multiset()),
{
    let ghost total = views(left@).to_multiset().add(views(right@).to_multiset());
    let ghost nothing = Multiset::<MusicView>::empty();
    let mut left = left;
    let mut right = right;
    // the records from the largest down: the larger of the two last ones goes first
    let mut down: Vec<Music> = Vec::new();
    proof {
        broadcast use vstd::multiset::group_multiset_axioms;

        views(down@).to_multiset_ensures();
        assert(views(down@).to_multiset() =~= nothing);
        assert(nothing.add(total) =~= total);
    }
    while left.len() > 0 || right.len() > 0
        invariant
            sorted(views(left@)),
            sorted(views(right@)),
            descending(views(down@)),
            below(views(left@), views(down@)),
            below(views(right@), views(down@)),
            views(down@).to_multiset().add(
                views(left@).to_multiset().add(views(right@).to_multiset()),
            ) == total,
        decreases left@.len() + right@.len(),
    {
        let ghost l = views(left@);
        let ghost r = views(right@);
        let ghost d = views(down@);
        let from_left = if left.len() == 0 {
            false
        } else if right.len() == 0 {
            true
        } else {
            compare_music(&left[left.len() - 1], &right[right.len() - 1]) == Order::Greater
        };
        if from_left {
            proof {
                if r.len() > 0 {
                    assert(l.last() == left@[left@.len() - 1]@);
                    assert(r.last() == right@[right@.len() - 1]@);
                    lemma_music_order(l.last(), r.last(), l.last());
                    lemma_music_order(r.last(), l.last(), r.last());
                }
                lemma_larger_goes_down(l, r, d);
                lemma_moved(l, d, r.to_multiset());
            }
            move_last(&mut left, &mut down);
        } else {
            proof {
                if l.len() > 0 {
                    assert(l.last() == left@[left@.len() - 1]@);
                    assert(r.last() == right@[right@.len() - 1]@);
                }
                lemma_larger_goes_down(r, l, d);
                lemma_moved(r, d, l.to_multiset());
            }
            move_last(&mut right, &mut down);
        }
    }
    proof {
        broadcast use vstd::multiset::group_multiset_axioms;

        views(left@).to_multiset_ensures();
        views(right@).to_multiset_ensures();
        assert(views(left@).to_multiset() =~= nothing);
        assert(views(right@).to_multiset() =~= nothing);
        assert(views(down@).to_multiset() =~= total);
    }
    // turned round, the records stand from the smallest up
    let mut up: Vec<Music> = Vec::new();
    proof {
        broadcast use vstd::multiset::group_multiset_axioms;

        views(up@).to_multiset_ensures();
        assert(views(up@).to_multiset() =~= nothing);
        assert(views(up@).to_multiset().add(views(down@).to_multiset().add(nothing)) =~= total);
    }
    while down.len() > 0
        invariant
            nothing == Multiset::<MusicView>::empty(),
            sorted(views(up@)),
            descending(views(down@)),
            below(views(up@), views(down@)),
            views(up@).to_multiset().add(views(down@).to_multiset().add(nothing)) == total,
        decreases down@.len(),
    {
        proof {
            lemma_smallest_goes_up(views(up@), views(down@));
            lemma_moved(views(down@), views(up@), nothing);
        }
        move_last(&mut down, &mut up);
    }
    proof {
        broadcast use vstd::multiset::group_multiset_axioms;

        views(down@).to_multiset_ensures();
        assert(views(down@).to_multiset() =~= nothing);
        assert(views(up@).to_multiset() =~= total);
    }
    up
}

/// Sorts the records: the result holds the records of `items`, each as often
/// as `items` does, and none comes after a later one.
pub fn sort_music(items: Vec<Music>) -> (r: Vec<Music>)
    ensures
        views(r@) == sort_of(views(items@)),
        sorted(views(r@)),
        views(r@).to_multiset() == views(items@).to_multiset(),
    decreases items@.len(),
{
    let ghost input = views(items@);
    let n: usize = items.len();
    if n <= 1 {
        proof {
            lemma_sort_of(input);
            lemma_sorted_is_unique(input, sort_of(input));
        }
        return items;
    }
    let mut left = items;
    let right = left.split_off(n / 2);
    proof {
        assert(input == views(left@) + views(right@));
        lemma_multiset_commutative(views(left@), views(right@));
    }
    let r = merge_sorted(sort_music(left), sort_music(right));
    proof {
        lemma_sort_of(input);
        lemma_sorted_is_unique(views(r@), sort_of(input));
    }
    r
}

/// The order of records is total.
pub proof fn lemma_music_order_is_total()
    ensures
        total_ordering(music_leq()),
{
    let leq = music_leq();
    assert forall|x: MusicView, y: MusicView, z: MusicView|
        #![trigger leq(x, y), leq(y, z)]
        {
            &&& leq(x, x)
            &&& (leq(x, y) && leq(y, x) ==> x == y)
            &&& (leq(x, y) && leq(y, z) ==> leq(x, z))
            &&& (leq(x, y) || leq(y, x))
        } by {
        lemma_music_order(x, y, z);
        lemma_music_order(x, x, x);
        lemma_music_order(y, x, z);
    }
}

/// What sorting gives is sorted and holds the records of its input, each as
/// often as the input does.
pub proof fn lemma_sort_of(s: Seq<MusicView>)
    ensures
        sorted(sort_of(s)),
        sort_of(s).to_multiset() == s.to_multiset(),
        sort_of(s).len() == s.len(),
{
    lemma_music_order_is_total();
    s.lemma_sort_by_ensures(music_leq());
    let t = sort_of(s);
    assert forall|i: int, j: int| 0 <= i < j < t.len() implies music_le(
        #[trigger] t[i],
        #[trigger] t[j],
    ) by {
        assert(music_leq()(t[i], t[j]));
    }
    s.to_multiset_ensures();
    sort_of(s).to_multiset_ensures();
}

/// Two sorted sequences with the same records are one sequence: what sorting
/// gives depends on its input alone.
pub proof fn lemma_sorted_is_unique(a: Seq<MusicView>, b: Seq<MusicView>)
    requires
        sorted(a),
        sorted(b),
        a.to_multiset() == b.to_multiset(),
    ensures
        a == b,
{
    let leq = music_leq();
    assert(sorted_by(a, leq));
    assert(sorted_by(b, leq));
    lemma_music_order_is_total();
    lemma_sorted_unique(a, b, leq);
}

/// Putting records in another order leaves their keys distinct.
pub proof fn lemma_reordering_keeps_distinct(a: Seq<MusicView>, b: Seq<MusicView>)
    requires
        distinct_keys(a),
        a.to_multiset() == b.to_multiset(),
    ensures
        distinct_keys(b),
    decreases b.len(),
{
    a.to_multiset_ensures();
    b.to_multiset_ensures();
    if b.len() > 0 {
        let last = b.len() - 1;
        let x = b[last];
        to_multiset_contains(b, x);
        to_multiset_contains(a, x);
        assert(b.contains(x));
        let i = choose|i: int| 0 <= i < a.len() && a[i] == x;
        let rest_a = a.remove(i);
        let rest_b = b.remove(last);
        to_multiset_remove(a, i);
        to_multiset_remove(b, last);
        assert forall|p: int, q: int| 0 <= p < q < rest_a.len() implies key(#[trigger] rest_a[p])
            != key(#[trigger] rest_a[q]) by {
            let pp = if p < i { p } else { p + 1 };
            let qq = if q < i { q } else { q + 1 };
            assert(rest_a[p] == a[pp] && rest_a[q] == a[qq]);
        }
        lemma_reordering_keeps_distinct(rest_a, rest_b);
        assert forall|p: int, q: int| 0 <= p < q < b.len() implies key(#[trigger] b[p]) != key(
            #[trigger] b[q],
        ) by {
            if q < last {
                assert(rest_b[p] == b[p] && rest_b[q] == b[q]);
            } else {
                assert(rest_b[p] == b[p]);
                to_multiset_contains(rest_b, b[p]);
                to_multiset_contains(rest_a, b[p]);
                assert(rest_b.contains(b[p]));
                let r = choose|r: int| 0 <= r < rest_a.len() && rest_a[r] == b[p];
                let rr = if r < i { r } else { r + 1 };
                assert(rest_a[r] == a[rr]);
                if rr < i {
                    assert(key(a[rr]) != key(a[i]));
                } else {
                    assert(key(a[i]) != key(a[rr]));
                }
            }
        }
    }
}

/// The merge of the catalog `existing` with the records `fetched`: the two
/// in this order, without their duplicates where `remove_duplicates` asks
/// for it, and sorted where `sort` asks for it.
pub open spec fn merged(
    existing: Seq<MusicView>,
    fetched: Seq<MusicView>,
    remove_duplicates: bool,
    sort: bool,
) -> Seq<MusicView> {
    let all = existing + fetched;
    let kept = if remove_duplicates {
        dedup(all)
    } else {
        all
    };
    if sort {
        sort_of(kept)
    } else {
        kept
    }
}

/// `r` is a merge of the catalog `existing` with the records `fetched`: it
/// holds the two in this order, without their duplicates where
/// `remove_duplicates` asks for it, and is sorted where `sort` asks for it.
pub open spec fn is_merge_of(
    r: Seq<MusicView>,
    existing: Seq<MusicView>,
    fetched: Seq<MusicView>,
    remove_duplicates: bool,
    sort: bool,
) -> bool {
    let all = existing + fetched;
    let kept = if remove_duplicates {
        dedup(all)
    } else {
        all
    };
    if sort {
        sorted(r) && r.to_multiset() == kept.to_multiset()
    } else {
        r == kept
    }
}

/// Merges what the platforms gave into the existing catalog: the existing
/// records come first, of the records with one key only the first stays, and
/// the result is sorted.
pub fn merge(existing: Vec<Music>, fetched: Vec<Music>, remove_duplicates: bool, sort: bool) -> (r:
    Vec<Music>)
    ensures
        views(r@) == merged(views(existing@), views(fetched@), remove_duplicates, sort),
        is_merge_of(views(r@), views(existing@), views(fetched@), remove_duplicates, sort),
        remove_duplicates ==> distinct_keys(views(r@)),
        sort ==> sorted(views(r@)),
        r@.len() <= existing@.len() + fetched@.len(),
{
    let mut items = existing;
    let mut more = fetched;
    items.append(&mut more);
    let ghost all = views(existing@) + views(fetched@);
    assert(views(items@) == all);
    let items = if remove_duplicates {
        proof {
            lemma_dedup_keys(all, key(arbitrary()));
        }
        dedup_counted(items).0
    } else {
        items
    };
    let ghost kept = views(items@);
    if sort {
        let sorted_items = sort_music(items);
        proof {
            if remove_duplicates {
                lemma_reordering_keeps_distinct(kept, views(sorted_items@));
            }
            kept.to_multiset_ensures();
            views(sorted_items@).to_multiset_ensures();
        }
        sorted_items
    } else {
        items
    }
}

/// Merging is determined by its input: two merges of the same records, under
/// the same choices, are one sequence.
pub proof fn lemma_merge_is_determined(
    a: Seq<MusicView>,
    b: Seq<MusicView>,
    existing: Seq<MusicView>,
    fetched: Seq<MusicView>,
    remove_duplicates: bool,
    sort: bool,
)
    requires
        is_merge_of(a, existing, fetched, remove_duplicates, sort),
        is_merge_of(b, existing, fetched, remove_duplicates, sort),
    ensures
        a == b,
{
    if sort {
        lemma_sorted_is_unique(a, b);
    }
}

} // verus!
