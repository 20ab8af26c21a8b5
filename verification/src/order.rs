//! The order of listing entries: episodes of one anime by episode, all else
//! by anime title, both compared without regard to case.
use crate::structs::{ParsedFile, ParsedFileView};
use crate::text::{chars_of, lowercase, to_lowercase};
use std::cmp::Ordering;
use vstd::prelude::*;

verus! {

/// Lexicographic order of character sequences from position `i` on, by
/// code point; a proper prefix comes first.
pub open spec fn lex_order_from(a: Seq<char>, b: Seq<char>, i: int) -> Ordering
    decreases a.len() - i,
{
    if i < 0 || i >= a.len() {
        if i >= b.len() {
            Ordering::Equal
        } else {
            Ordering::Less
        }
    } else if i >= b.len() {
        Ordering::Greater
    } else if a[i] < b[i] {
        Ordering::Less
    } else if b[i] < a[i] {
        Ordering::Greater
    } else {
        lex_order_from(a, b, i + 1)
    }
}

/// The order of `String` and `str` in std: lexicographic by UTF-8 bytes,
/// which is lexicographic by code point.
pub open spec fn lex_order(a: Seq<char>, b: Seq<char>) -> Ordering {
    lex_order_from(a, b, 0)
}

/// The opposite order.
pub open spec fn reversed(o: Ordering) -> Ordering {
    match o {
        Ordering::Less => Ordering::Greater,
        Ordering::Equal => Ordering::Equal,
        Ordering::Greater => Ordering::Less,
    }
}

/// An optional string, with `"~~~"` for an absent one.
pub open spec fn or_tildes(o: Option<Seq<char>>) -> Seq<char> {
    match o {
        Some(s) => s,
        None => "~~~"@,
    }
}

/// The order of two listing entries. Two plain files of the same anime
/// (titles compared as they are) go by episode; any other pair goes by
/// anime title. Both comparisons are on the lowercase forms, with `"~~~"`
/// standing for an absent value.
pub open spec fn file_order(a: ParsedFileView, b: ParsedFileView) -> Ordering {
    if a.file_type == Some("file"@) && b.file_type == Some("file"@) && or_tildes(a.anime)
        == or_tildes(b.anime) {
        lex_order(lowercase(or_tildes(a.episode)), lowercase(or_tildes(b.episode)))
    } else {
        lex_order(lowercase(or_tildes(a.anime)), lowercase(or_tildes(b.anime)))
    }
}

/// The two entries can be compared without a panic: the first has a type,
/// and when it is a plain file the second has one too.
pub open spec fn file_order_defined(a: ParsedFileView, b: ParsedFileView) -> bool {
    &&& a.file_type is Some
    &&& a.file_type == Some("file"@) ==> b.file_type is Some
}

proof fn lemma_lex_order_from_reversed(a: Seq<char>, b: Seq<char>, i: int)
    requires
        0 <= i,
    ensures
        lex_order_from(b, a, i) == reversed(lex_order_from(a, b, i)),
    decreases a.len() - i,
{
    if i < a.len() && i < b.len() && a[i] == b[i] {
        lemma_lex_order_from_reversed(a, b, i + 1);
    }
}

proof fn lemma_lex_order_from_same(a: Seq<char>, i: int)
    requires
        0 <= i,
    ensures
        lex_order_from(a, a, i) == Ordering::Equal,
    decreases a.len() - i,
{
    if i < a.len() {
        lemma_lex_order_from_same(a, i + 1);
    }
}

/// Swapping the arguments of the lexicographic order reverses it.
pub proof fn lemma_lex_order_reversed(a: Seq<char>, b: Seq<char>)
    ensures
        lex_order(b, a) == reversed(lex_order(a, b)),
{
    lemma_lex_order_from_reversed(a, b, 0);
}

/// A sequence is equal to itself in the lexicographic order.
pub proof fn lemma_lex_order_same(a: Seq<char>)
    ensures
        lex_order(a, a) == Ordering::Equal,
{
    lemma_lex_order_from_same(a, 0);
}

proof fn lemma_lex_order_from_equal(a: Seq<char>, b: Seq<char>, i: int)
    requires
        0 <= i <= a.len(),
        i <= b.len(),
        a.take(i) == b.take(i),
    ensures
        lex_order_from(a, b, i) == Ordering::Equal <==> a == b,
    decreases a.len() - i,
{
    if i < a.len() && i < b.len() && a[i] == b[i] {
        assert(a.take(i + 1) =~= a.take(i).push(a[i]));
        assert(b.take(i + 1) =~= b.take(i).push(b[i]));
        lemma_lex_order_from_equal(a, b, i + 1);
    } else if i == a.len() && i == b.len() {
        assert(a =~= a.take(i));
        assert(b =~= b.take(i));
    } else if i < a.len() && i < b.len() {
        assert(a[i] != b[i]);
    } else if i == a.len() {
        assert(a.len() != b.len());
    } else {
        assert(a.len() != b.len());
    }
}

/// Two sequences are equal in the lexicographic order exactly when they are
/// the same sequence.
pub proof fn lemma_lex_order_equal(a: Seq<char>, b: Seq<char>)
    ensures
        lex_order(a, b) == Ordering::Equal <==> a == b,
{
    assert(a.take(0) =~= b.take(0));
    lemma_lex_order_from_equal(a, b, 0);
}

/// Compares two strings as std's `Ord` on `str` does.
pub fn compare_strings(a: &str, b: &str) -> (r: Ordering)
    ensures
        r == lex_order(a@, b@),
{
    let av = chars_of(a);
    let bv = chars_of(b);
    let n = av.len();
    let m = bv.len();
    let mut i: usize = 0;
    let ghost mut k: int = 0;
    loop
        invariant
            av@ == a@,
            bv@ == b@,
            n == a@.len(),
            m == b@.len(),
            i <= n,
            i <= m,
            k == i,
            lex_order(a@, b@) == lex_order_from(a@, b@, k),
        decreases n - i,
    {
        if i >= n {
            if i >= m {
                return Ordering::Equal;
            } else {
                return Ordering::Less;
            }
        } else if i >= m {
            return Ordering::Greater;
        } else if av[i] < bv[i] {
            return Ordering::Less;
        } else if bv[i] < av[i] {
            return Ordering::Greater;
        }
        i = i + 1;
        proof {
            k = k + 1;
        }
    }
}

/// The string, or `"~~~"`.
fn or_tildes_str(o: &Option<String>) -> (r: &str)
    ensures
        r@ == or_tildes(o.deep_view()),
{
    match o {
        Some(s) => s.as_str(),
        None => "~~~",
    }
}

/// Compares two listing entries: plain files of the same anime by episode,
/// everything else by anime title, both without regard to case.
pub fn file_sort(a: &ParsedFile, b: &ParsedFile) -> (r: Ordering)
    requires
        file_order_defined(a@, b@),
    ensures
        r == file_order(a@, b@),
        !(a@.file_type == Some("file"@) && b@.file_type == Some("file"@)) ==> r == lex_order(
            lowercase(or_tildes(a@.anime)),
            lowercase(or_tildes(b@.anime)),
        ),
        a@.file_type == Some("file"@) && b@.file_type == Some("file"@) && or_tildes(a@.anime)
            == or_tildes(b@.anime) ==> r == lex_order(
            lowercase(or_tildes(a@.episode)),
            lowercase(or_tildes(b@.episode)),
        ),
        or_tildes(a@.anime) != or_tildes(b@.anime) ==> r == lex_order(
            lowercase(or_tildes(a@.anime)),
            lowercase(or_tildes(b@.anime)),
        ),
{
    proof {
        lemma_file_order_by_title_unless_both_files(a@, b@);
        lemma_file_order_by_title_for_different_anime(a@, b@);
        lemma_file_order_by_episode_within_anime(a@, b@);
    }
    let plain = String::from_str("file");
    let a_anime = or_tildes_str(&a.anime);
    let b_anime = or_tildes_str(&b.anime);
    let a_plain = match &a.file_type {
        Some(t) => *t == plain,
        None => false,
    };
    let b_plain = match &b.file_type {
        Some(t) => *t == plain,
        None => false,
    };
    let same_anime = String::from_str(a_anime) == String::from_str(b_anime);
    if a_plain && b_plain && same_anime {
        let a_episode = to_lowercase(or_tildes_str(&a.episode));
        let b_episode = to_lowercase(or_tildes_str(&b.episode));
        compare_strings(a_episode.as_str(), b_episode.as_str())
    } else {
        let a_lower = to_lowercase(a_anime);
        let b_lower = to_lowercase(b_anime);
        compare_strings(a_lower.as_str(), b_lower.as_str())
    }
}

/// Unless both entries are plain files, their order is that of their
/// lowercase anime titles: a directory is never ordered by episode.
pub proof fn lemma_file_order_by_title_unless_both_files(a: ParsedFileView, b: ParsedFileView)
    ensures
        !(a.file_type == Some("file"@) && b.file_type == Some("file"@)) ==> file_order(a, b)
            == lex_order(lowercase(or_tildes(a.anime)), lowercase(or_tildes(b.anime))),
{
}

/// Entries of different anime (titles as written) are ordered by their
/// lowercase anime titles, whatever their types.
pub proof fn lemma_file_order_by_title_for_different_anime(a: ParsedFileView, b: ParsedFileView)
    ensures
        or_tildes(a.anime) != or_tildes(b.anime) ==> file_order(a, b) == lex_order(
            lowercase(or_tildes(a.anime)),
            lowercase(or_tildes(b.anime)),
        ),
{
}

/// Two plain files of the same anime are ordered by their lowercase episodes.
pub proof fn lemma_file_order_by_episode_within_anime(a: ParsedFileView, b: ParsedFileView)
    ensures
        a.file_type == Some("file"@) && b.file_type == Some("file"@) && or_tildes(a.anime)
            == or_tildes(b.anime) ==> file_order(a, b) == lex_order(
            lowercase(or_tildes(a.episode)),
            lowercase(or_tildes(b.episode)),
        ),
{
}

/// When not both entries are plain files, their episodes play no part:
/// changing the episodes leaves the order as it is.
pub proof fn lemma_file_order_ignores_episodes_unless_both_files(
    a: ParsedFileView,
    b: ParsedFileView,
    a2: ParsedFileView,
    b2: ParsedFileView,
)
    requires
        !(a.file_type == Some("file"@) && b.file_type == Some("file"@)),
        a2 == (ParsedFileView { episode: a2.episode, ..a }),
        b2 == (ParsedFileView { episode: b2.episode, ..b }),
    ensures
        file_order(a2, b2) == file_order(a, b),
{
}

/// An absent anime title or episode sorts exactly as the text `~~~` would.
pub proof fn lemma_file_order_absent_is_tildes(a: ParsedFileView, b: ParsedFileView)
    ensures
        a.anime is None ==> file_order(a, b) == file_order(
            ParsedFileView { anime: Some("~~~"@), ..a },
            b,
        ),
        a.episode is None ==> file_order(a, b) == file_order(
            ParsedFileView { episode: Some("~~~"@), ..a },
            b,
        ),
{
}

/// Swapping two entries reverses their order.
pub proof fn lemma_file_order_reversed(a: ParsedFileView, b: ParsedFileView)
    ensures
        file_order(b, a) == reversed(file_order(a, b)),
{
    lemma_lex_order_reversed(lowercase(or_tildes(a.episode)), lowercase(or_tildes(b.episode)));
    lemma_lex_order_reversed(lowercase(or_tildes(a.anime)), lowercase(or_tildes(b.anime)));
}

/// Every entry is equal to itself in the listing order.
pub proof fn lemma_file_order_same(a: ParsedFileView)
    ensures
        file_order(a, a) == Ordering::Equal,
{
    lemma_lex_order_same(lowercase(or_tildes(a.episode)));
    lemma_lex_order_same(lowercase(or_tildes(a.anime)));
}

} // verus!
