use vstd::prelude::*;

verus! {

/// Whether a character has the Unicode property `White_Space`, by which
/// `str::trim` and `char::is_whitespace` go: the tab, the line and page
/// breaks, the space, and the spaces and separators beyond ASCII.
pub open spec fn is_white_space(c: char) -> bool {
    let code = c as u32;
    ||| 0x09 <= code <= 0x0D
    ||| code == 0x20
    ||| code == 0x85
    ||| code == 0xA0
    ||| code == 0x1680
    ||| 0x2000 <= code <= 0x200A
    ||| code == 0x2028
    ||| code == 0x2029
    ||| code == 0x202F
    ||| code == 0x205F
    ||| code == 0x3000
}

/// The text that bytes stand for where every invalid UTF-8 sequence is read
/// as U+FFFD: what `String::from_utf8_lossy` returns.
pub uninterp spec fn utf8_lossy(bytes: Seq<u8>) -> Seq<char>;

/// The number of whitespace characters at the start of a text.
pub open spec fn leading_white_space(text: Seq<char>) -> nat
    decreases text.len(),
{
    if text.len() > 0 && is_white_space(text.first()) {
        1 + leading_white_space(text.drop_first())
    } else {
        0
    }
}

/// The number of whitespace characters at the end of a text.
pub open spec fn trailing_white_space(text: Seq<char>) -> nat
    decreases text.len(),
{
    if text.len() > 0 && is_white_space(text.last()) {
        1 + trailing_white_space(text.drop_last())
    } else {
        0
    }
}

/// A text without the whitespace at its start.
pub open spec fn trimmed_start(text: Seq<char>) -> Seq<char> {
    text.skip(leading_white_space(text) as int)
}

/// A text without the whitespace at its start and at its end.
pub open spec fn trimmed(text: Seq<char>) -> Seq<char> {
    let rest = trimmed_start(text);
    rest.take(rest.len() - trailing_white_space(rest))
}

/// Whether `needle` stands in `text` at the position `at`.
pub open spec fn occurs_at(text: Seq<char>, needle: Seq<char>, at: int) -> bool {
    &&& 0 <= at
    &&& at + needle.len() <= text.len()
    &&& text.subrange(at, at + needle.len()) == needle
}

/// Whether `needle` stands somewhere in `text`.
pub open spec fn contains_text(text: Seq<char>, needle: Seq<char>) -> bool {
    exists|at: int| occurs_at(text, needle, at)
}

/// What follows the last occurrence of `delimiter`, or the whole text where
/// the delimiter does not occur.
pub open spec fn last_segment_of(text: Seq<char>, delimiter: char) -> Seq<char>
    decreases text.len(),
{
    if text.len() == 0 || text.last() == delimiter {
        Seq::empty()
    } else {
        last_segment_of(text.drop_last(), delimiter).push(text.last())
    }
}

/// A text without its first character where that is `prefix`.
pub open spec fn without_prefix(text: Seq<char>, prefix: char) -> Seq<char> {
    if text.len() > 0 && text.first() == prefix {
        text.drop_first()
    } else {
        text
    }
}

/// `str::trim`: the slice without its leading and trailing whitespace, where
/// whitespace is what has the Unicode property `White_Space`.
#[verifier::external_body]
pub(crate) fn trim<'a>(text: &'a str) -> (result: &'a str)
    ensures
        result@ == trimmed(text@),
{
    text.trim()
}

/// `str::contains` with a string pattern: whether the pattern matches a
/// sub-slice of the text.
#[verifier::external_body]
pub(crate) fn contains(text: &str, needle: &str) -> (found: bool)
    ensures
        found == contains_text(text@, needle@),
{
    text.contains(needle)
}

/// `str::rsplit_once` with a character as delimiter: the text before and
/// after the last occurrence of the delimiter, or nothing where it does not
/// occur.
#[verifier::external_body]
pub(crate) fn rsplit_once<'a>(text: &'a str, delimiter: char) -> (result: Option<(&'a str, &'a str)>)
    ensures
        match result {
            Some((head, tail)) => text@ == head@ + seq![delimiter] + tail@ && !tail@.contains(
                delimiter,
            ),
            None => !text@.contains(delimiter),
        },
{
    text.rsplit_once(delimiter)
}

/// `str::strip_prefix` with a character as prefix: the text after the prefix
/// where the text starts with it, and nothing where it does not.
#[verifier::external_body]
pub(crate) fn strip_prefix<'a>(text: &'a str, prefix: char) -> (result: Option<&'a str>)
    ensures
        match result {
            Some(rest) => text@.len() > 0 && text@.first() == prefix && rest@ == text@.drop_first(),
            None => text@.len() == 0 || text@.first() != prefix,
        },
{
    text.strip_prefix(prefix)
}

/// `String::from_utf8_lossy`: the bytes as text, each invalid sequence
/// replaced by U+FFFD.
#[verifier::external_body]
pub(crate) fn from_utf8_lossy(bytes: &[u8]) -> (text: String)
    ensures
        text@ == utf8_lossy(bytes@),
{
    String::from_utf8_lossy(bytes).into_owned()
}

/// A text that begins with a character that is no whitespace and ends with
/// one whitespace character after one that is none loses exactly its last
/// character when it is trimmed.
pub proof fn lemma_trimmed_drops_one(text: Seq<char>)
    requires
        text.len() >= 2,
        !is_white_space(text.first()),
        is_white_space(text.last()),
        !is_white_space(text[text.len() - 2]),
    ensures
        trimmed(text) == text.drop_last(),
{
    assert(leading_white_space(text) == 0);
    assert(trimmed_start(text) =~= text);
    let shorter = text.drop_last();
    assert(shorter.last() == text[text.len() - 2]);
    assert(trailing_white_space(shorter) == 0);
    assert(trailing_white_space(text) == 1);
    assert(text.take(text.len() - 1) =~= shorter);
}

/// The text without the whitespace around it.
pub fn trimmed_text(text: &str) -> (result: String)
    ensures
        result@ == trimmed(text@),
{
    String::from_str(trim(text))
}

/// Whether a text holds nothing but whitespace.
pub fn is_blank(text: &str) -> (blank: bool)
    ensures
        blank == (trimmed(text@).len() == 0),
{
    trim(text).unicode_len() == 0
}

/// What follows the last occurrence of `delimiter` in a text.
pub fn last_segment(text: &str, delimiter: char) -> (segment: String)
    ensures
        segment@ == last_segment_of(text@, delimiter),
{
    match rsplit_once(text, delimiter) {
        Some((head, tail)) => {
            proof {
                lemma_last_segment(head@ + seq![delimiter], tail@, delimiter);
                assert((head@ + seq![delimiter]) + tail@ =~= text@);
            }
            String::from_str(tail)
        },
        None => {
            proof {
                lemma_last_segment(Seq::empty(), text@, delimiter);
                assert(Seq::<char>::empty() + text@ =~= text@);
            }
            String::from_str(text)
        },
    }
}

/// A tail without the delimiter, after nothing or after a text that ends with
/// the delimiter, is the last segment.
pub proof fn lemma_last_segment(head: Seq<char>, tail: Seq<char>, delimiter: char)
    requires
        head.len() == 0 || head.last() == delimiter,
        !tail.contains(delimiter),
    ensures
        last_segment_of(head + tail, delimiter) == tail,
    decreases tail.len(),
{
    let whole = head + tail;
    if tail.len() == 0 {
        assert(whole =~= head);
        assert(last_segment_of(whole, delimiter) =~= tail);
    } else {
        assert(tail.last() != delimiter) by {
            assert(tail[tail.len() - 1] == tail.last());
        }
        assert(whole.last() == tail.last());
        assert(whole.drop_last() =~= head + tail.drop_last());
        assert(!tail.drop_last().contains(delimiter)) by {
            if tail.drop_last().contains(delimiter) {
                let i = choose|i: int|
                    0 <= i < tail.drop_last().len() && tail.drop_last()[i] == delimiter;
                assert(tail[i] == delimiter);
            }
        }
        lemma_last_segment(head, tail.drop_last(), delimiter);
        assert(tail.drop_last().push(tail.last()) =~= tail);
    }
}

/// The text without a leading `prefix`.
pub fn strip_leading(text: &str, prefix: char) -> (result: String)
    ensures
        result@ == without_prefix(text@, prefix),
{
    match strip_prefix(text, prefix) {
        Some(rest) => String::from_str(rest),
        None => String::from_str(text),
    }
}

} // verus!
