//! Slash-delimited text: the position of the last `/`, the part after it, and the two slugs
//! found by walking a path backwards.

use vstd::prelude::*;
use vstd::std_specs::iter::IteratorSpec;
use vstd::string::StrSliceExecFns;

verus! {

/// Index of the last `/` in `s`, or `-1` where `s` holds none.
pub open spec fn last_slash(s: Seq<char>) -> int
    decreases s.len(),
{
    if s.len() == 0 {
        -1
    } else if s.last() == '/' {
        s.len() - 1
    } else {
        last_slash(s.drop_last())
    }
}

/// The part of `s` after its last `/`; all of `s` where it holds none.
pub open spec fn basename(s: Seq<char>) -> Seq<char> {
    s.subrange(last_slash(s) + 1, s.len() as int)
}

/// The part of `s` before its last `/`. Meaningful only where `s` holds a `/`.
pub open spec fn parent(s: Seq<char>) -> Seq<char> {
    s.subrange(0, last_slash(s))
}

/// The pieces of `path` reached by stepping backwards two `/`-delimited pieces at a time:
/// the last piece, then the piece two before it. `None` where `path` has fewer than three
/// pieces, that is fewer than two `/`.
pub open spec fn alternate_slugs(path: Seq<char>) -> Option<(Seq<char>, Seq<char>)> {
    if last_slash(path) < 0 || last_slash(parent(path)) < 0 {
        None
    } else {
        Some((basename(parent(parent(path))), basename(path)))
    }
}

/// The jam and game slugs of `path`: the pieces that `alternate_slugs` finds, where both are
/// non-empty. `None` where `path` has fewer than three pieces or one of the two is empty.
pub open spec fn game_slugs(path: Seq<char>) -> Option<(Seq<char>, Seq<char>)> {
    match alternate_slugs(path) {
        Some((jam, game)) => if jam.len() > 0 && game.len() > 0 {
            Some((jam, game))
        } else {
            None
        },
        None => None,
    }
}

/// `last_slash` is `-1` or the index of a `/` after which `s` holds no other.
pub proof fn lemma_last_slash(s: Seq<char>)
    ensures
        -1 <= last_slash(s) < s.len(),
        last_slash(s) >= 0 ==> s[last_slash(s)] == '/',
        forall|i: int| last_slash(s) < i < s.len() ==> s[i] != '/',
    decreases s.len(),
{
    if s.len() > 0 && s.last() != '/' {
        let head = s.drop_last();
        lemma_last_slash(head);
        assert forall|i: int| last_slash(s) < i < s.len() implies s[i] != '/' by {
            if i < head.len() {
                assert(head[i] == s[i]);
            }
        }
    }
}

/// Any position that `lemma_last_slash` describes is `last_slash(s)`.
pub proof fn lemma_last_slash_is(s: Seq<char>, k: int)
    requires
        -1 <= k < s.len(),
        k >= 0 ==> s[k] == '/',
        forall|i: int| k < i < s.len() ==> s[i] != '/',
    ensures
        last_slash(s) == k,
{
    lemma_last_slash(s);
}

/// Appending one character moves the last `/` only where that character is one.
pub proof fn lemma_last_slash_push(s: Seq<char>, c: char)
    ensures
        last_slash(s.push(c)) == if c == '/' {
            s.len() as int
        } else {
            last_slash(s)
        },
{
    assert(s.push(c).drop_last() =~= s);
}

/// Whether `s` holds no `/`.
pub open spec fn is_piece(s: Seq<char>) -> bool {
    forall|i: int| 0 <= i < s.len() ==> s[i] != '/'
}

/// After `head`, a `/` and a piece without `/`, the last `/` is the one after `head`: the
/// part before it is `head`, the part after it the piece.
pub proof fn lemma_split_at_last_slash(head: Seq<char>, piece: Seq<char>)
    requires
        is_piece(piece),
    ensures
        last_slash(head + seq!['/'] + piece) == head.len(),
        parent(head + seq!['/'] + piece) == head,
        basename(head + seq!['/'] + piece) == piece,
{
    let s = head + seq!['/'] + piece;
    lemma_last_slash_is(s, head.len() as int);
    assert(parent(s) =~= head);
    assert(basename(s) =~= piece);
}

/// A text without `/` is its own last piece.
pub proof fn lemma_piece_is_basename(piece: Seq<char>)
    requires
        is_piece(piece),
    ensures
        last_slash(piece) == -1,
        basename(piece) == piece,
{
    lemma_last_slash_is(piece, -1);
    assert(basename(piece) =~= piece);
}

/// The pieces that stepping backwards finds in a path that ends in `{jam}/{section}/{game}`,
/// each of the three without a `/` and the jam at the path's start or after a `/`: `jam` and
/// `game`, whatever stands before them and whatever the section is called.
pub proof fn lemma_alternate_slugs_of_path(
    head: Seq<char>,
    jam: Seq<char>,
    section: Seq<char>,
    game: Seq<char>,
)
    requires
        head.len() == 0 || head.last() == '/',
        is_piece(jam),
        is_piece(section),
        is_piece(game),
    ensures
        alternate_slugs(head + jam + seq!['/'] + section + seq!['/'] + game) == Some((jam, game)),
{
    let upper = head + jam + seq!['/'] + section;
    let top = head + jam;
    lemma_split_at_last_slash(upper, game);
    lemma_split_at_last_slash(top, section);
    if head.len() == 0 {
        assert(top =~= jam);
        lemma_piece_is_basename(jam);
    } else {
        let stem = head.drop_last();
        assert(top =~= stem + seq!['/'] + jam);
        lemma_split_at_last_slash(stem, jam);
    }
}

/// A path that ends in `{jam}/{section}/{game}`, with a jam and a game that are not empty,
/// has the slugs `jam` and `game`, whatever stands before them and whatever the section is
/// called.
pub proof fn lemma_slugs_of_game_path(
    head: Seq<char>,
    jam: Seq<char>,
    section: Seq<char>,
    game: Seq<char>,
)
    requires
        head.len() == 0 || head.last() == '/',
        is_piece(jam),
        is_piece(section),
        is_piece(game),
        jam.len() > 0,
        game.len() > 0,
    ensures
        game_slugs(head + jam + seq!['/'] + section + seq!['/'] + game) == Some((jam, game)),
{
    lemma_alternate_slugs_of_path(head, jam, section, game);
}

/// A path has no slugs where the piece of its jam or of its game is empty: one that ends
/// in `/`, and one whose jam would stand before the first `/` or between two `/`.
pub proof fn lemma_empty_slug_is_no_slug(
    head: Seq<char>,
    jam: Seq<char>,
    section: Seq<char>,
    game: Seq<char>,
)
    requires
        head.len() == 0 || head.last() == '/',
        is_piece(jam),
        is_piece(section),
        is_piece(game),
        jam.len() == 0 || game.len() == 0,
    ensures
        game_slugs(head + jam + seq!['/'] + section + seq!['/'] + game) is None,
{
    lemma_alternate_slugs_of_path(head, jam, section, game);
}

/// A path with at most one `/` has no slugs.
pub proof fn lemma_slugs_need_two_slashes(first: Seq<char>, second: Seq<char>)
    requires
        is_piece(first),
        is_piece(second),
    ensures
        game_slugs(first) is None,
        game_slugs(first + seq!['/'] + second) is None,
{
    lemma_piece_is_basename(first);
    lemma_split_at_last_slash(first, second);
}

/// Slugs are never empty.
pub proof fn lemma_slugs_are_not_empty(path: Seq<char>)
    ensures
        game_slugs(path) matches Some((jam, game)) ==> jam.len() > 0 && game.len() > 0,
{
}

/// The positions of the last `/` of a text, of the `/` before it, and of the one before that,
/// as far as the text holds them.
pub struct SlashMarks {
    pub last: Option<usize>,
    pub middle: Option<usize>,
    pub first: Option<usize>,
}

/// A position as an integer: `-1` where there is none.
pub open spec fn mark(position: Option<usize>) -> int {
    match position {
        Some(p) => p as int,
        None => -1,
    }
}

/// The character length of `s` and, from the back, the positions of its last three `/`.
pub fn scan_slashes(s: &str) -> (found: (usize, SlashMarks))
    ensures
        found.0 == s@.len(),
        mark(found.1.last) == last_slash(s@),
        last_slash(s@) >= 0 ==> mark(found.1.middle) == last_slash(parent(s@)),
        last_slash(s@) >= 0 && last_slash(parent(s@)) >= 0 ==> mark(found.1.first) == last_slash(
            parent(parent(s@)),
        ),
{
    broadcast use vstd::string::group_string_axioms;

    let total = s.unicode_len();
    let mut marks = SlashMarks { last: None, middle: None, first: None };
    let mut seen: usize = 0;
    let mut it = s.chars();
    loop
        invariant
            it.obeys_prophetic_iter_laws(),
            it.decrease() is Some,
            total == s@.len(),
            seen <= total,
            s@.subrange(0, seen as int) + it.remaining() == s@,
            mark(marks.last) == last_slash(s@.subrange(0, seen as int)),
            mark(marks.last) >= 0 ==> mark(marks.middle) == last_slash(
                s@.subrange(0, mark(marks.last)),
            ),
            mark(marks.last) >= 0 && mark(marks.middle) >= 0 ==> mark(marks.first) == last_slash(
                s@.subrange(0, mark(marks.middle)),
            ),
            mark(marks.last) < seen,
            mark(marks.last) >= 0 ==> mark(marks.middle) < mark(marks.last),
        ensures
            seen == total,
            total == s@.len(),
            mark(marks.last) == last_slash(s@),
            mark(marks.last) >= 0 ==> mark(marks.middle) == last_slash(
                s@.subrange(0, mark(marks.last)),
            ),
            mark(marks.last) >= 0 && mark(marks.middle) >= 0 ==> mark(marks.first) == last_slash(
                s@.subrange(0, mark(marks.middle)),
            ),
            mark(marks.last) >= 0 ==> mark(marks.middle) < mark(marks.last),
        decreases it.decrease()->0,
    {
        let ghost before = s@.subrange(0, seen as int);
        let ghost rest = it.remaining();
        match it.next() {
            Some(c) => {
                proof {
                    assert(s@[seen as int] == (before + rest)[seen as int]);
                    assert(s@.subrange(0, seen + 1) =~= before.push(c));
                    assert(before.push(c) + it.remaining() =~= before + rest);
                    lemma_last_slash_push(before, c);
                }
                if c == '/' {
                    marks = SlashMarks { last: Some(seen), middle: marks.last, first: marks.middle };
                    proof {
                        assert(s@.subrange(0, seen + 1).subrange(0, seen as int) =~= before);
                    }
                }
                seen = seen + 1;
            },
            None => {
                proof {
                    assert(before + rest =~= before);
                    assert(s@.subrange(0, seen as int) =~= s@);
                }
                break;
            },
        }
    }
    proof {
        lemma_last_slash(s@);
        if mark(marks.last) >= 0 {
            assert(parent(s@) == s@.subrange(0, mark(marks.last)));
            lemma_last_slash(parent(s@));
            if mark(marks.middle) >= 0 {
                assert(parent(parent(s@)) =~= s@.subrange(0, mark(marks.middle)));
            }
        }
    }
    (total, marks)
}

/// Whether two texts hold the same characters.
pub fn same_text(a: &str, b: &str) -> (same: bool)
    ensures
        same == (a@ == b@),
{
    let left = a.to_owned();
    let right = b.to_owned();
    left == right
}

/// The part of `s` after its last `/`; all of `s` where it holds none.
pub fn basename_of(s: &str) -> (base: &str)
    ensures
        base@ == basename(s@),
{
    let (total, marks) = scan_slashes(s);
    proof {
        lemma_last_slash(s@);
    }
    match marks.last {
        Some(p) => s.substring_char(p + 1, total),
        None => s.substring_char(0, total),
    }
}

} // verus!
