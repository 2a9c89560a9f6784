//! The record of one track, the key by which two records count as the same
//! song, and the removal of duplicates.

use crate::text::{
    decimal, decimal_string, lemma_decimal_is_read_back, lemma_trim_idempotent, lowercase,
    to_lowercase, trim, trimmed,
};
use vstd::hash_set::StringHashSet;
use vstd::prelude::*;

verus! {

/// One track of a catalog.
#[derive(Debug, Eq, PartialOrd, Ord)]
pub struct Music {
    /// Author of the music
    pub author: String,
    /// Title of the music
    pub title: String,
    /// URL of the music
    pub url: Option<String>,
    /// Thumbnail of the music
    pub thumbnail: Option<String>,
    /// Release date of the music
    pub date: Option<String>,
    /// Album of the music
    pub album: Option<String>,
}

/// What a `Music` holds, as sequences of characters.
pub ghost struct MusicView {
    pub author: Seq<char>,
    pub title: Seq<char>,
    pub url: Option<Seq<char>>,
    pub thumbnail: Option<Seq<char>>,
    pub date: Option<Seq<char>>,
    pub album: Option<Seq<char>>,
}

/// The characters of a text that may be absent.
pub open spec fn option_view(o: Option<String>) -> Option<Seq<char>> {
    match o {
        Some(s) => Some(s@),
        None => None,
    }
}

impl View for Music {
    type V = MusicView;

    open spec fn view(&self) -> MusicView {
        MusicView {
            author: self.author@,
            title: self.title@,
            url: option_view(self.url),
            thumbnail: option_view(self.thumbnail),
            date: option_view(self.date),
            album: option_view(self.album),
        }
    }
}

/// What each record of `s` holds.
pub open spec fn views(s: Seq<Music>) -> Seq<MusicView> {
    s.map_values(|m: Music| m@)
}

/// A text without the whitespace round it, in lower case.
pub open spec fn normalize(s: Seq<char>) -> Seq<char> {
    lowercase(trim(s))
}

/// The key of a record: its normalized title and its normalized author. Two
/// records with one key are the same song, whatever else they hold.
pub open spec fn key(m: MusicView) -> (Seq<char>, Seq<char>) {
    (normalize(m.title), normalize(m.author))
}

/// A record of `s` has the key `k`.
pub open spec fn has_key(s: Seq<MusicView>, k: (Seq<char>, Seq<char>)) -> bool {
    exists|i: int| 0 <= i < s.len() && key(#[trigger] s[i]) == k
}

/// No two records of `s` have one key.
pub open spec fn distinct_keys(s: Seq<MusicView>) -> bool {
    forall|i: int, j: int| 0 <= i < j < s.len() ==> key(#[trigger] s[i]) != key(#[trigger] s[j])
}

/// The record at `i` is the first of `s` with its key.
pub open spec fn first_of_key(s: Seq<MusicView>, i: int) -> bool {
    forall|j: int| 0 <= j < i ==> key(#[trigger] s[j]) != key(s[i])
}

/// `s` without its duplicates: of the records with one key the first stays,
/// as it is, and the records that stay keep their order.
pub open spec fn dedup(s: Seq<MusicView>) -> Seq<MusicView>
    decreases s.len(),
{
    if s.len() == 0 {
        s
    } else if has_key(s.drop_last(), key(s.last())) {
        dedup(s.drop_last())
    } else {
        dedup(s.drop_last()).push(s.last())
    }
}

/// Whitespace round a text does not count: a text and what trimming leaves
/// of it are normalized alike.
pub proof fn lemma_normalize_ignores_outer_whitespace(s: Seq<char>)
    ensures
        normalize(trim(s)) == normalize(s),
{
    lemma_trim_idempotent(s);
}

/// A copy of a text that may be absent.
pub fn clone_option(o: &Option<String>) -> (r: Option<String>)
    ensures
        r == *o,
{
    match o {
        Some(s) => Some(s.clone()),
        None => None,
    }
}

impl Clone for Music {
    fn clone(&self) -> (r: Self)
        ensures
            r == *self,
    {
        Music {
            author: self.author.clone(),
            title: self.title.clone(),
            url: clone_option(&self.url),
            thumbnail: clone_option(&self.thumbnail),
            date: clone_option(&self.date),
            album: clone_option(&self.album),
        }
    }
}

impl Music {
    /// The title without the whitespace round it, in lower case.
    pub fn normalized_title(&self) -> (r: String)
        ensures
            r@ == normalize(self@.title),
    {
        to_lowercase(trimmed(self.title.as_str()))
    }

    /// The author without the whitespace round it, in lower case.
    pub fn normalized_author(&self) -> (r: String)
        ensures
            r@ == normalize(self@.author),
    {
        to_lowercase(trimmed(self.author.as_str()))
    }
}

impl PartialEq for Music {
    /// Two records are equal when their keys are.
    fn eq(&self, other: &Self) -> (r: bool) {
        self.normalized_title() == other.normalized_title() && self.normalized_author()
            == other.normalized_author()
    }
}

impl vstd::std_specs::cmp::PartialEqSpecImpl for Music {
    open spec fn obeys_eq_spec() -> bool {
        true
    }

    open spec fn eq_spec(&self, other: &Self) -> bool {
        key(self@) == key(other@)
    }
}

/// A key written as one text: the length of the title, a colon, the title,
/// the author. Two keys are written alike only where they are the same.
pub open spec fn written_key(k: (Seq<char>, Seq<char>)) -> Seq<char> {
    decimal(k.0.len()) + seq![':'] + k.0 + k.1
}

/// Keys that are written alike are the same.
pub proof fn lemma_written_key_is_injective(a: (Seq<char>, Seq<char>), b: (Seq<char>, Seq<char>))
    requires
        written_key(a) == written_key(b),
    ensures
        a == b,
{
    let da = decimal(a.0.len());
    let db = decimal(b.0.len());
    let wa = written_key(a);
    let wb = written_key(b);
    lemma_decimal_is_read_back(a.0.len());
    lemma_decimal_is_read_back(b.0.len());
    // the colon is the first character that is no digit, so the lengths are written alike
    assert(wa[da.len() as int] == ':');
    assert(wb[db.len() as int] == ':');
    if da.len() < db.len() {
        assert(wb[da.len() as int] == db[da.len() as int]);
        assert(false);
    }
    if db.len() < da.len() {
        assert(wa[db.len() as int] == da[db.len() as int]);
        assert(false);
    }
    assert(da =~= db) by {
        assert forall|i: int| 0 <= i < da.len() implies da[i] == db[i] by {
            assert(wa[i] == da[i]);
            assert(wb[i] == db[i]);
        }
    }
    assert(a.0.len() == b.0.len());
    let start = da.len() + 1;
    assert(a.0 =~= b.0) by {
        assert forall|i: int| 0 <= i < a.0.len() implies a.0[i] == b.0[i] by {
            assert(wa[start + i] == a.0[i]);
            assert(wb[start + i] == b.0[i]);
        }
    }
    assert(wa.len() == wb.len());
    assert(a.1 =~= b.1) by {
        assert forall|i: int| 0 <= i < a.1.len() implies a.1[i] == b.1[i] by {
            assert(wa[start + a.0.len() + i] == a.1[i]);
            assert(wb[start + b.0.len() + i] == b.1[i]);
        }
    }
}

/// Writes the key `(title, author)` as one text.
fn write_key(title: &String, author: &String) -> (r: String)
    ensures
        r@ == written_key((title@, author@)),
{
    let count: usize = title.as_str().unicode_len();
    let mut r = decimal_string(count as u64);
    r.append(":");
    r.append(title.as_str());
    r.append(author.as_str());
    proof {
        reveal_strlit(":");
        assert(":"@ =~= seq![':']);
    }
    r
}

/// Removes the duplicates of `music_vec` and counts them: of the records with
/// one key the first stays, as it is; the later ones are dropped.
pub fn dedup_counted(music_vec: Vec<Music>) -> (r: (Vec<Music>, usize))
    ensures
        views(r.0@) == dedup(views(music_vec@)),
        r.1 == music_vec@.len() - r.0@.len(),
{
    let ghost input = views(music_vec@);
    let mut unique_vec: Vec<Music> = Vec::new();
    let mut seen = StringHashSet::new();
    let mut dup_count: usize = 0;
    let ghost total = music_vec@.len();
    assert(total == music_vec.len());
    for music in it: music_vec
        invariant
            total == music_vec@.len(),
            total <= usize::MAX,
            it.seq() == music_vec@,
            input == views(music_vec@),
            views(unique_vec@) == dedup(input.take(it.index() as int)),
            forall|code: Seq<char>|
                seen@.contains(code) <==> exists|k: int|
                    0 <= k < unique_vec@.len() && written_key(
                        key(#[trigger] views(unique_vec@)[k]),
                    ) == code,
            dup_count + unique_vec@.len() == it.index(),
    {
        let ghost k = it.index() as int;
        let ghost before = input.take(k);
        let ghost kept = views(unique_vec@);
        let ghost codes = seen@;
        assert(k < total);
        let title = music.normalized_title();
        let author = music.normalized_author();
        let code = write_key(&title, &author);
        proof {
            assert(input.take(k + 1).drop_last() == before);
            assert(input.take(k + 1).last() == music@);
            lemma_dedup_keys(before, key(music@));
            // the key was seen exactly where a record that stays has it
            if has_key(kept, key(music@)) {
                let w = choose|i: int| 0 <= i < kept.len() && key(#[trigger] kept[i]) == key(music@);
                assert(written_key(key(kept[w])) == code@);
            }
            if codes.contains(code@) {
                let w = choose|i: int|
                    0 <= i < kept.len() && written_key(key(#[trigger] kept[i])) == code@;
                lemma_written_key_is_injective(key(kept[w]), key(music@));
            }
        }
        if seen.insert(code) {
            unique_vec.push(music);
            proof {
                let now = views(unique_vec@);
                assert(now == kept.push(music@));
                assert forall|c: Seq<char>| seen@.contains(c) <==> exists|j: int|
                    0 <= j < now.len() && written_key(key(#[trigger] now[j])) == c by {
                    if seen@.contains(c) {
                        if c == code@ {
                            assert(written_key(key(now[kept.len() as int])) == c);
                        } else {
                            let j = choose|j: int|
                                0 <= j < kept.len() && written_key(key(#[trigger] kept[j])) == c;
                            assert(now[j] == kept[j]);
                        }
                    }
                    if exists|j: int| 0 <= j < now.len() && written_key(key(#[trigger] now[j])) == c {
                        let j = choose|j: int|
                            0 <= j < now.len() && written_key(key(#[trigger] now[j])) == c;
                        if j < kept.len() {
                            assert(now[j] == kept[j]);
                        }
                    }
                }
            }
        } else {
            assert(seen@ == codes);
            dup_count += 1;
        }
    }
    assert(input.take(music_vec@.len() as int) == input);
    (unique_vec, dup_count)
}

/// Remove duplicates from a vector of Music
pub fn unique_music(music_vec: Vec<Music>) -> (r: Vec<Music>)
    ensures
        views(r@) == dedup(views(music_vec@)),
{
    dedup_counted(music_vec).0
}

/// What stays of `s` has the keys of `s`, each once, and is no longer.
pub proof fn lemma_dedup_keys(s: Seq<MusicView>, k: (Seq<char>, Seq<char>))
    ensures
        has_key(dedup(s), k) <==> has_key(s, k),
        distinct_keys(dedup(s)),
        dedup(s).len() <= s.len(),
    decreases s.len(),
{
    if s.len() > 0 {
        let head = s.drop_last();
        let d = dedup(head);
        lemma_dedup_keys(head, k);
        lemma_dedup_keys(head, key(s.last()));
        if has_key(s, k) {
            let i = choose|i: int| 0 <= i < s.len() && key(#[trigger] s[i]) == k;
            if i < s.len() - 1 {
                assert(key(head[i]) == k);
                let j = choose|j: int| 0 <= j < d.len() && key(#[trigger] d[j]) == k;
                assert(key(dedup(s)[j]) == k);
            } else if has_key(head, key(s.last())) {
            } else {
                assert(key(dedup(s)[d.len() as int]) == k);
            }
        }
        if has_key(dedup(s), k) {
            let j = choose|j: int| 0 <= j < dedup(s).len() && key(#[trigger] dedup(s)[j]) == k;
            if j < d.len() {
                assert(key(d[j]) == k);
                let i = choose|i: int| 0 <= i < head.len() && key(#[trigger] head[i]) == k;
                assert(key(s[i]) == k);
            } else {
                assert(key(s[s.len() - 1]) == k);
            }
        }
        if !has_key(head, key(s.last())) {
            assert forall|i: int, j: int| 0 <= i < j < dedup(s).len() implies key(
                #[trigger] dedup(s)[i],
            ) != key(#[trigger] dedup(s)[j]) by {
                if j == d.len() {
                    assert(dedup(s)[i] == d[i]);
                    if key(d[i]) == key(s.last()) {
                        assert(has_key(d, key(s.last())));
                    }
                } else {
                    assert(dedup(s)[i] == d[i] && dedup(s)[j] == d[j]);
                }
            }
        }
    }
}

/// The records that stay are the first ones of their keys: the first record
/// of each key stays, and nothing else does.
pub proof fn lemma_dedup_keeps_firsts(s: Seq<MusicView>)
    ensures
        forall|i: int| 0 <= i < s.len() && first_of_key(s, i) ==> dedup(s).contains(#[trigger] s[i]),
        forall|k: int|
            0 <= k < dedup(s).len() ==> exists|i: int|
                0 <= i < s.len() && first_of_key(s, i) && s[i] == #[trigger] dedup(s)[k],
    decreases s.len(),
{
    if s.len() > 0 {
        let head = s.drop_last();
        let last = s.len() - 1;
        let d = dedup(head);
        lemma_dedup_keeps_firsts(head);
        assert forall|i: int| 0 <= i < s.len() && first_of_key(s, i) implies dedup(s).contains(
            #[trigger] s[i],
        ) by {
            if i < last {
                assert(head[i] == s[i]);
                assert(first_of_key(head, i)) by {
                    assert forall|j: int| 0 <= j < i implies key(#[trigger] head[j]) != key(
                        head[i],
                    ) by {
                        assert(head[j] == s[j]);
                    }
                }
                let k = choose|k: int| 0 <= k < d.len() && d[k] == head[i];
                assert(dedup(s)[k] == s[i]);
            } else {
                if has_key(head, key(s.last())) {
                    let j = choose|j: int| 0 <= j < head.len() && key(#[trigger] head[j]) == key(
                        s.last(),
                    );
                    assert(head[j] == s[j]);
                    assert(key(s[j]) != key(s[i]));
                }
                assert(dedup(s)[d.len() as int] == s[i]);
            }
        }
        assert forall|k: int| 0 <= k < dedup(s).len() implies exists|i: int|
            0 <= i < s.len() && first_of_key(s, i) && s[i] == #[trigger] dedup(s)[k] by {
            if k < d.len() {
                assert(dedup(s)[k] == d[k]);
                let i = choose|i: int| 0 <= i < head.len() && first_of_key(head, i) && head[i] == d[k];
                assert(head[i] == s[i]);
                assert(first_of_key(s, i)) by {
                    assert forall|j: int| 0 <= j < i implies key(#[trigger] s[j]) != key(s[i]) by {
                        assert(head[j] == s[j]);
                    }
                }
            } else {
                assert(!has_key(head, key(s.last())));
                assert(first_of_key(s, last)) by {
                    assert forall|j: int| 0 <= j < last implies key(#[trigger] s[j]) != key(
                        s[last],
                    ) by {
                        assert(head[j] == s[j]);
                        if key(head[j]) == key(s.last()) {
                            assert(has_key(head, key(s.last())));
                        }
                    }
                }
                assert(dedup(s)[k] == s[last]);
            }
        }
    }
}

/// Nothing is removed from records whose keys all differ.
pub proof fn lemma_dedup_of_distinct(s: Seq<MusicView>)
    requires
        distinct_keys(s),
    ensures
        dedup(s) == s,
    decreases s.len(),
{
    if s.len() > 0 {
        let head = s.drop_last();
        assert forall|i: int, j: int| 0 <= i < j < head.len() implies key(#[trigger] head[i])
            != key(#[trigger] head[j]) by {
            assert(head[i] == s[i] && head[j] == s[j]);
        }
        lemma_dedup_of_distinct(head);
        if has_key(head, key(s.last())) {
            let i = choose|i: int| 0 <= i < head.len() && key(#[trigger] head[i]) == key(s.last());
            assert(head[i] == s[i]);
            assert(key(s[i]) != key(s[s.len() - 1]));
        }
        assert(head.push(s.last()) == s);
    }
}

/// Removing duplicates twice gives what removing them once gives, and the
/// result is never longer than the input.
pub proof fn lemma_dedup_idempotent(s: Seq<MusicView>)
    ensures
        dedup(dedup(s)) == dedup(s),
        dedup(s).len() <= s.len(),
{
    lemma_dedup_keys(s, key(arbitrary()));
    lemma_dedup_of_distinct(dedup(s));
}

} // verus!
