use vstd::prelude::*;
use crate::infrastructure::text::{contains_text, occurs_at};

verus! {

/// Whether `piece` differs from `needle` at the `k`-th character after `at`,
/// within the piece.
pub open spec fn differs_within(piece: Seq<char>, needle: Seq<char>, at: int, k: int) -> bool {
    0 <= k < needle.len() && at + k < piece.len() && piece[at + k] != needle[k]
}

/// Whether no occurrence of `needle` can begin at `at`, whatever follows the
/// piece: the piece itself differs from the needle there.
pub open spec fn begins_not(piece: Seq<char>, needle: Seq<char>, at: int) -> bool {
    exists|k: int| differs_within(piece, needle, at, k)
}

/// Whether no occurrence of `needle` begins in `piece`, whatever follows it.
pub open spec fn begins_nowhere(piece: Seq<char>, needle: Seq<char>) -> bool {
    forall|at: int| 0 <= at < piece.len() ==> #[trigger] begins_not(piece, needle, at)
}

/// Whether `needle` stands in `piece` at `place`, and no other occurrence
/// begins in the piece, whatever follows it.
pub open spec fn begins_only_at(piece: Seq<char>, needle: Seq<char>, place: int) -> bool {
    &&& occurs_at(piece, needle, place)
    &&& forall|at: int|
        0 <= at < piece.len() && at != place ==> #[trigger] begins_not(piece, needle, at)
}

/// Whether the occurrences of `needle` in `text` are the one at `place`, or
/// none where there is no place.
pub open spec fn found(text: Seq<char>, needle: Seq<char>, place: Option<int>) -> bool {
    forall|at: int| #[trigger] occurs_at(text, needle, at) <==> place == Some(at)
}

/// A place, moved behind `length` characters.
pub open spec fn moved(place: Option<int>, length: nat) -> Option<int> {
    match place {
        Some(at) => Some(at + length),
        None => None,
    }
}

/// Where a piece differs from the needle, no occurrence begins.
pub proof fn lemma_begins_not(piece: Seq<char>, rest: Seq<char>, needle: Seq<char>, at: int)
    requires
        0 <= at < piece.len(),
        begins_not(piece, needle, at),
    ensures
        !occurs_at(piece + rest, needle, at),
{
    let k = choose|k: int| differs_within(piece, needle, at, k);
    let text = piece + rest;
    if occurs_at(text, needle, at) {
        assert(text.subrange(at, at + needle.len())[k] == needle[k]);
        assert(text[at + k] == piece[at + k]);
    }
}

/// An occurrence behind a piece is an occurrence in what follows the piece.
pub proof fn lemma_occurrence_behind(piece: Seq<char>, rest: Seq<char>, needle: Seq<char>, at: int)
    requires
        at >= piece.len(),
    ensures
        occurs_at(piece + rest, needle, at) == occurs_at(rest, needle, at - piece.len()),
{
    let text = piece + rest;
    let back = at - piece.len();
    if at + needle.len() <= text.len() {
        assert(text.subrange(at, at + needle.len()) =~= rest.subrange(back, back + needle.len()));
    }
}

/// An occurrence in a piece is an occurrence in the piece with what follows.
pub proof fn lemma_occurrence_within(piece: Seq<char>, rest: Seq<char>, needle: Seq<char>, at: int)
    requires
        occurs_at(piece, needle, at),
    ensures
        occurs_at(piece + rest, needle, at),
{
    assert((piece + rest).subrange(at, at + needle.len()) =~= piece.subrange(
        at,
        at + needle.len(),
    ));
}

/// A piece in which no occurrence begins leaves the occurrences of what
/// follows as they are, moved behind the piece.
pub proof fn lemma_behind_clean_piece(
    piece: Seq<char>,
    rest: Seq<char>,
    needle: Seq<char>,
    place: Option<int>,
)
    requires
        begins_nowhere(piece, needle),
        found(rest, needle, place),
        place is Some ==> place->Some_0 >= 0,
    ensures
        found(piece + rest, needle, moved(place, piece.len())),
{
    assert forall|at: int| #[trigger]
        occurs_at(piece + rest, needle, at) <==> moved(place, piece.len()) == Some(at) by {
        if 0 <= at < piece.len() {
            assert(begins_not(piece, needle, at));
            lemma_begins_not(piece, rest, needle, at);
        } else if at >= piece.len() {
            lemma_occurrence_behind(piece, rest, needle, at);
            assert(occurs_at(rest, needle, at - piece.len()) <==> place == Some(at - piece.len()));
        }
    }
}

/// A piece that holds the needle at one place only, before a text without
/// the needle, makes that place the only occurrence.
pub proof fn lemma_piece_with_the_needle(
    piece: Seq<char>,
    rest: Seq<char>,
    needle: Seq<char>,
    place: int,
)
    requires
        begins_only_at(piece, needle, place),
        found(rest, needle, None),
    ensures
        found(piece + rest, needle, Some(place)),
{
    assert forall|at: int| #[trigger]
        occurs_at(piece + rest, needle, at) <==> Some(place) == Some(at) by {
        if at == place {
            lemma_occurrence_within(piece, rest, needle, at);
        } else if 0 <= at < piece.len() {
            assert(begins_not(piece, needle, at));
            lemma_begins_not(piece, rest, needle, at);
        } else if at >= piece.len() {
            lemma_occurrence_behind(piece, rest, needle, at);
            assert(occurs_at(rest, needle, at - piece.len()) <==> None::<int> == Some(
                at - piece.len(),
            ));
        }
    }
}

/// A name that does not hold the first `core` characters of the needle, and
/// behind which the needle cannot go on, leaves the occurrences of what
/// follows as they are, moved behind the name. The needle cannot go on where
/// none of its first `core` characters after the first is the character that
/// follows the name, or the one after it is not the second that follows.
pub proof fn lemma_behind_name(
    name: Seq<char>,
    rest: Seq<char>,
    needle: Seq<char>,
    core: int,
    place: Option<int>,
)
    requires
        0 < core <= needle.len(),
        !contains_text(name, needle.take(core)),
        rest.len() > 0,
        forall|l: int|
            1 <= l < core ==> #[trigger] needle[l] != rest[0] || (l + 1 < needle.len() && rest.len()
                > 1 && needle[l + 1] != rest[1]),
        found(rest, needle, place),
        place is Some ==> place->Some_0 >= 0,
    ensures
        found(name + rest, needle, moved(place, name.len())),
{
    let text = name + rest;
    assert forall|at: int| #[trigger]
        occurs_at(text, needle, at) <==> moved(place, name.len()) == Some(at) by {
        if 0 <= at < name.len() {
            if occurs_at(text, needle, at) {
                let within = name.len() - at;
                let taken = text.subrange(at, at + needle.len());
                if within >= core {
                    assert(name.subrange(at, at + core) =~= needle.take(core)) by {
                        assert forall|k: int| 0 <= k < core implies name.subrange(at, at + core)[k]
                            == needle.take(core)[k] by {
                            assert(taken[k] == needle[k]);
                            assert(text[at + k] == name[at + k]);
                        }
                    }
                    assert(occurs_at(name, needle.take(core), at));
                } else {
                    assert(taken[within] == needle[within]);
                    assert(text[at + within] == rest[0]);
                    if needle[within] == rest[0] {
                        assert(taken[within + 1] == needle[within + 1]);
                        assert(text[at + within + 1] == rest[1]);
                    }
                }
            }
        } else if at >= name.len() {
            lemma_occurrence_behind(name, rest, needle, at);
            assert(occurs_at(rest, needle, at - name.len()) <==> place == Some(at - name.len()));
        }
    }
}

/// Where no occurrence of the beginning of a needle begins, none of the
/// needle does.
pub proof fn lemma_longer_needle(piece: Seq<char>, beginning: Seq<char>, needle: Seq<char>)
    requires
        beginning.len() <= needle.len(),
        needle.take(beginning.len() as int) == beginning,
        begins_nowhere(piece, beginning),
    ensures
        begins_nowhere(piece, needle),
{
    assert forall|at: int| 0 <= at < piece.len() implies #[trigger] begins_not(
        piece,
        needle,
        at,
    ) by {
        assert(begins_not(piece, beginning, at));
        let k = choose|k: int| differs_within(piece, beginning, at, k);
        assert(needle.take(beginning.len() as int)[k] == needle[k]);
        assert(differs_within(piece, needle, at, k));
    }
}

/// A piece in which no occurrence begins, with nothing behind it, does not
/// hold the needle.
pub proof fn lemma_clean_piece_alone(piece: Seq<char>, needle: Seq<char>)
    requires
        begins_nowhere(piece, needle),
        needle.len() > 0,
    ensures
        found(piece, needle, None),
{
    assert forall|at: int| #[trigger] occurs_at(piece, needle, at) <==> None::<int> == Some(at) by {
        if 0 <= at < piece.len() {
            assert(begins_not(piece, needle, at));
            lemma_begins_not(piece, Seq::empty(), needle, at);
            assert(piece + Seq::<char>::empty() =~= piece);
        }
    }
}

/// Whether the occurrences of `needle` in `text` are at the places of which
/// `places` holds.
pub open spec fn occurs_where(text: Seq<char>, needle: Seq<char>, places: spec_fn(int) -> bool) -> bool {
    forall|at: int| #[trigger] occurs_at(text, needle, at) <==> places(at)
}

/// The places, moved behind `length` characters.
pub open spec fn behind(places: spec_fn(int) -> bool, length: nat) -> spec_fn(int) -> bool {
    |at: int| at >= length && places(at - length)
}

/// The places, and one more.
pub open spec fn with_place(place: int, places: spec_fn(int) -> bool) -> spec_fn(int) -> bool {
    |at: int| at == place || places(at)
}

/// A piece in which no occurrence begins, with nothing behind it, holds the
/// needle nowhere.
pub proof fn lemma_places_in_clean_piece(piece: Seq<char>, needle: Seq<char>)
    requires
        begins_nowhere(piece, needle),
        needle.len() > 0,
    ensures
        occurs_where(piece, needle, |at: int| false),
{
    lemma_clean_piece_alone(piece, needle);
    assert forall|at: int| #[trigger] occurs_at(piece, needle, at) <==> false by {
        assert(occurs_at(piece, needle, at) <==> None::<int> == Some(at));
    }
}

/// A piece in which no occurrence begins leaves the places of what follows
/// as they are, moved behind the piece.
pub proof fn lemma_places_behind_clean_piece(
    piece: Seq<char>,
    rest: Seq<char>,
    needle: Seq<char>,
    places: spec_fn(int) -> bool,
)
    requires
        begins_nowhere(piece, needle),
        occurs_where(rest, needle, places),
    ensures
        occurs_where(piece + rest, needle, behind(places, piece.len())),
{
    assert forall|at: int| #[trigger]
        occurs_at(piece + rest, needle, at) <==> behind(places, piece.len())(at) by {
        if 0 <= at < piece.len() {
            assert(begins_not(piece, needle, at));
            lemma_begins_not(piece, rest, needle, at);
        } else if at >= piece.len() {
            lemma_occurrence_behind(piece, rest, needle, at);
            assert(occurs_at(rest, needle, at - piece.len()) <==> places(at - piece.len()));
        }
    }
}

/// A piece that holds the needle at one place only adds that place to the
/// places of what follows, moved behind the piece.
pub proof fn lemma_places_behind_piece_with_the_needle(
    piece: Seq<char>,
    rest: Seq<char>,
    needle: Seq<char>,
    place: int,
    places: spec_fn(int) -> bool,
)
    requires
        begins_only_at(piece, needle, place),
        occurs_where(rest, needle, places),
    ensures
        occurs_where(piece + rest, needle, with_place(place, behind(places, piece.len()))),
{
    assert forall|at: int| #[trigger]
        occurs_at(piece + rest, needle, at) <==> with_place(place, behind(places, piece.len()))(
            at,
        ) by {
        if at == place {
            lemma_occurrence_within(piece, rest, needle, at);
        } else if 0 <= at < piece.len() {
            assert(begins_not(piece, needle, at));
            lemma_begins_not(piece, rest, needle, at);
        } else if at >= piece.len() {
            lemma_occurrence_behind(piece, rest, needle, at);
            assert(occurs_at(rest, needle, at - piece.len()) <==> places(at - piece.len()));
        }
    }
}

/// A name that does not hold the first `core` characters of the needle, and
/// behind which the needle cannot go on, leaves the places of what follows as
/// they are, moved behind the name.
pub proof fn lemma_places_behind_name(
    name: Seq<char>,
    rest: Seq<char>,
    needle: Seq<char>,
    core: int,
    places: spec_fn(int) -> bool,
)
    requires
        0 < core <= needle.len(),
        !contains_text(name, needle.take(core)),
        rest.len() > 0,
        forall|l: int|
            1 <= l < core ==> #[trigger] needle[l] != rest[0] || (l + 1 < needle.len() && rest.len()
                > 1 && needle[l + 1] != rest[1]),
        occurs_where(rest, needle, places),
    ensures
        occurs_where(name + rest, needle, behind(places, name.len())),
{
    let text = name + rest;
    assert forall|at: int| #[trigger]
        occurs_at(text, needle, at) <==> behind(places, name.len())(at) by {
        if 0 <= at < name.len() {
            if occurs_at(text, needle, at) {
                let within = name.len() - at;
                let taken = text.subrange(at, at + needle.len());
                if within >= core {
                    assert(name.subrange(at, at + core) =~= needle.take(core)) by {
                        assert forall|k: int| 0 <= k < core implies name.subrange(at, at + core)[k]
                            == needle.take(core)[k] by {
                            assert(taken[k] == needle[k]);
                            assert(text[at + k] == name[at + k]);
                        }
                    }
                    assert(occurs_at(name, needle.take(core), at));
                } else {
                    assert(taken[within] == needle[within]);
                    assert(text[at + within] == rest[0]);
                    if needle[within] == rest[0] {
                        assert(taken[within + 1] == needle[within + 1]);
                        assert(text[at + within + 1] == rest[1]);
                    }
                }
            }
        } else if at >= name.len() {
            lemma_occurrence_behind(name, rest, needle, at);
            assert(occurs_at(rest, needle, at - name.len()) <==> places(at - name.len()));
        }
    }
}

} // verus!
