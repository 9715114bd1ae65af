//! Small string utilities that the rest of the crate builds its texts with.

use vstd::prelude::*;

verus! {

/// The texts of a list of borrowed words, in order.
pub open spec fn word_views(words: Seq<&str>) -> Seq<Seq<char>> {
    Seq::new(words.len(), |i: int| words[i]@)
}

/// The texts of a list of strings, in order.
pub open spec fn string_views(words: Seq<String>) -> Seq<Seq<char>> {
    Seq::new(words.len(), |i: int| words[i]@)
}

/// Whether two texts are the same, character by character.
pub fn same_text(a: &str, b: &str) -> (r: bool)
    ensures
        r == (a@ == b@),
{
    let x = String::from_str(a);
    let y = String::from_str(b);
    x == y
}

/// The upper-case mapping of a character as the standard library's Unicode
/// tables give it.
pub uninterp spec fn uppercase_of(c: char) -> Seq<char>;

/// Calls `char::to_uppercase` and collects what it yields. Trusted: the result
/// is the character's upper-case mapping, named by [`uppercase_of`].
#[verifier::external_body]
pub(crate) fn char_to_uppercase(c: char) -> (r: Vec<char>)
    ensures
        r@ == uppercase_of(c),
{
    c.to_uppercase().collect()
}

/// Calls `String::push`. Trusted: the character is appended to the string.
#[verifier::external_body]
pub(crate) fn push_char(s: &mut String, c: char)
    ensures
        final(s)@ == old(s)@.push(c),
{
    s.push(c)
}

/// The text `s` with every `-` replaced by a space and the first character of
/// every word replaced by its upper-case mapping. `at_start` says whether the
/// next character begins a word.
pub open spec fn capitalized_words(s: Seq<char>, at_start: bool) -> Seq<char>
    decreases s.len(),
{
    if s.len() == 0 {
        Seq::<char>::empty()
    } else if s[0] == '-' {
        seq![' '] + capitalized_words(s.subrange(1, s.len() as int), true)
    } else if at_start {
        uppercase_of(s[0]) + capitalized_words(s.subrange(1, s.len() as int), false)
    } else {
        seq![s[0]] + capitalized_words(s.subrange(1, s.len() as int), false)
    }
}

/// Turns a hyphenated slug such as `quiet-river` into a display name such as
/// `Quiet River`.
pub fn title_case(slug: &str) -> (r: String)
    ensures
        r@ == capitalized_words(slug@, true),
{
    let mut out = String::new();
    let mut at_start = true;
    assert(slug@.subrange(0, slug@.len() as int) =~= slug@);
    for c in it: slug.chars()
        invariant
            it.seq() == slug@,
            out@ + capitalized_words(
                slug@.subrange(it.index() as int, slug@.len() as int),
                at_start,
            ) == capitalized_words(slug@, true),
    {
        let ghost tail = slug@.subrange(it.index() as int, slug@.len() as int);
        let ghost rest = slug@.subrange(it.index() + 1, slug@.len() as int);
        let ghost before = out@;
        assert(tail.subrange(1, tail.len() as int) =~= rest);
        if c == '-' {
            push_char(&mut out, ' ');
            at_start = true;
        } else if at_start {
            let up = char_to_uppercase(c);
            let mut j: usize = 0;
            while j < up.len()
                invariant
                    j <= up.len(),
                    out@ == before + up@.subrange(0, j as int),
                decreases up.len() - j,
            {
                push_char(&mut out, up[j]);
                j += 1;
            }
            at_start = false;
        } else {
            push_char(&mut out, c);
        }
    }
    out
}

/// A slug that holds a hyphen gives a display name that holds a space, and
/// so one that is not empty.
pub proof fn lemma_hyphen_gives_space(s: Seq<char>, at_start: bool)
    requires
        s.contains('-'),
    ensures
        capitalized_words(s, at_start).contains(' '),
        capitalized_words(s, at_start).len() > 0,
    decreases s.len(),
{
    let rest = s.subrange(1, s.len() as int);
    if s[0] == '-' {
        assert(capitalized_words(s, at_start)[0] == ' ');
    } else {
        let k = choose|k: int| 0 <= k < s.len() && s[k] == '-';
        assert(rest[k - 1] == '-');
        let head = if at_start {
            uppercase_of(s[0])
        } else {
            seq![s[0]]
        };
        lemma_hyphen_gives_space(rest, false);
        let tail = capitalized_words(rest, false);
        let j = choose|j: int| 0 <= j < tail.len() && tail[j] == ' ';
        assert(capitalized_words(s, at_start) == head + tail);
        assert((head + tail)[head.len() + j] == ' ');
    }
}

} // verus!
