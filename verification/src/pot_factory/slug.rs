//! Handles derived from pot names: lowercase, keep letters, digits and
//! whitespace, and join the words with hyphens.
use vstd::prelude::*;
use crate::text::{chars_of, string_from_chars};

verus! {

/// What `str::to_lowercase` returns for a string of characters `s`.
pub uninterp spec fn spec_lowercase(s: Seq<char>) -> Seq<char>;

/// What `char::is_alphanumeric` returns for `c`.
pub uninterp spec fn spec_is_alphanumeric(c: char) -> bool;

/// Whether `c` has Unicode's `White_Space` property, which is what
/// `char::is_whitespace` returns: U+0009 to U+000D, the space U+0020, U+0085,
/// U+00A0, U+1680, U+2000 to U+200A, U+2028, U+2029, U+202F, U+205F and U+3000.
pub open spec fn spec_is_whitespace(c: char) -> bool {
    let u = c as u32;
    ||| 0x09 <= u <= 0x0D
    ||| u == 0x20
    ||| u == 0x85
    ||| u == 0xA0
    ||| u == 0x1680
    ||| 0x2000 <= u <= 0x200A
    ||| u == 0x2028
    ||| u == 0x2029
    ||| u == 0x202F
    ||| u == 0x205F
    ||| u == 0x3000
}

/// `str::to_lowercase`: the lowercase equivalent of `s` under Unicode's
/// `Lowercase` property. Its result is only named here, as a function of `s`.
#[verifier::external_body]
fn to_lowercase(s: &str) -> (r: String)
    ensures
        r@ == spec_lowercase(s@),
{
    s.to_lowercase()
}

/// `char::is_alphanumeric`: whether `c` is alphabetic or numeric under
/// Unicode. Its result is only named here, as a function of `c`.
#[verifier::external_body]
fn is_alphanumeric(c: char) -> (b: bool)
    ensures
        b == spec_is_alphanumeric(c),
{
    c.is_alphanumeric()
}

/// Whether `c` has Unicode's `White_Space` property (the characters listed
/// at `spec_is_whitespace`), as `char::is_whitespace` answers.
pub fn is_whitespace(c: char) -> (b: bool)
    ensures
        b == spec_is_whitespace(c),
{
    let u = c as u32;
    (0x09 <= u && u <= 0x0D) || u == 0x20 || u == 0x85 || u == 0xA0 || u == 0x1680
        || (0x2000 <= u && u <= 0x200A) || u == 0x2028 || u == 0x2029 || u == 0x202F
        || u == 0x205F || u == 0x3000
}

/// A character that a slug keeps before it is split into words.
pub open spec fn spec_slug_keeps(c: char) -> bool {
    spec_is_alphanumeric(c) || spec_is_whitespace(c)
}

/// The characters of `s` that a slug keeps, in order.
pub open spec fn spec_slug_filter(s: Seq<char>) -> Seq<char>
    decreases s.len(),
{
    if s.len() == 0 {
        s
    } else {
        let rest = spec_slug_filter(s.drop_last());
        if spec_slug_keeps(s.last()) {
            rest.push(s.last())
        } else {
            rest
        }
    }
}

/// The maximal runs of non-whitespace characters of `s`, in order
/// (`str::split_whitespace`).
pub open spec fn spec_words(s: Seq<char>) -> Seq<Seq<char>>
    decreases s.len(),
{
    if s.len() == 0 {
        Seq::empty()
    } else {
        let words = spec_words(s.drop_last());
        let c = s.last();
        if spec_is_whitespace(c) {
            words
        } else if s.len() >= 2 && !spec_is_whitespace(s[s.len() - 2]) {
            words.update(words.len() - 1, words.last().push(c))
        } else {
            words.push(seq![c])
        }
    }
}

/// The words joined with `sep` between each two.
pub open spec fn spec_join(words: Seq<Seq<char>>, sep: char) -> Seq<char>
    decreases words.len(),
{
    if words.len() == 0 {
        Seq::empty()
    } else if words.len() == 1 {
        words[0]
    } else {
        spec_join(words.drop_last(), sep).push(sep) + words.last()
    }
}

/// The slug of `s`: its lowercase form, reduced to letters, digits and
/// whitespace, with its words joined by hyphens.
pub open spec fn spec_slugify(s: Seq<char>) -> Seq<char> {
    spec_join(spec_words(spec_slug_filter(spec_lowercase(s))), '-')
}

/// A string ending in a non-whitespace character has at least one word.
proof fn lemma_words_nonempty(s: Seq<char>)
    requires
        s.len() > 0,
        !spec_is_whitespace(s.last()),
    ensures
        spec_words(s).len() > 0,
    decreases s.len(),
{
    if s.len() >= 2 && !spec_is_whitespace(s[s.len() - 2]) {
        lemma_words_nonempty(s.drop_last());
    }
}

/// Appending `c` to the last word appends `c` to the joined text.
proof fn lemma_join_extend_last(words: Seq<Seq<char>>, sep: char, c: char)
    requires
        words.len() > 0,
    ensures
        spec_join(words.update(words.len() - 1, words.last().push(c)), sep) == spec_join(words, sep).push(c),
{
    let w2 = words.update(words.len() - 1, words.last().push(c));
    if words.len() > 1 {
        assert(w2.drop_last() =~= words.drop_last());
        assert((spec_join(words.drop_last(), sep).push(sep) + words.last()).push(c)
            =~= spec_join(words.drop_last(), sep).push(sep) + words.last().push(c));
    }
}

/// A new word goes after a separator, unless it is the first.
proof fn lemma_join_push(words: Seq<Seq<char>>, sep: char, c: char)
    ensures
        spec_join(words.push(seq![c]), sep) == if words.len() == 0 {
            seq![c]
        } else {
            spec_join(words, sep).push(sep).push(c)
        },
{
    let w2 = words.push(seq![c]);
    assert(w2.drop_last() =~= words);
    if words.len() > 0 {
        assert(spec_join(words, sep).push(sep) + seq![c] =~= spec_join(words, sep).push(sep).push(c));
    }
}

/// The characters of `v` that a slug keeps.
pub fn slug_filter(v: &Vec<char>) -> (r: Vec<char>)
    ensures
        r@ == spec_slug_filter(v@),
{
    let mut r: Vec<char> = Vec::new();
    let mut i: usize = 0;
    while i < v.len()
        invariant
            i <= v@.len(),
            r@ == spec_slug_filter(v@.subrange(0, i as int)),
        decreases v@.len() - i,
    {
        let c = v[i];
        assert(v@.subrange(0, i + 1).drop_last() =~= v@.subrange(0, i as int));
        if is_alphanumeric(c) || is_whitespace(c) {
            r.push(c);
        }
        i += 1;
    }
    assert(v@.subrange(0, v@.len() as int) =~= v@);
    r
}

/// The words of `v` (split at whitespace) joined with hyphens.
pub fn join_words(v: &Vec<char>) -> (r: Vec<char>)
    ensures
        r@ == spec_join(spec_words(v@), '-'),
{
    let mut r: Vec<char> = Vec::new();
    let mut i: usize = 0;
    let mut prev_is_space = true;
    let mut any_word = false;
    while i < v.len()
        invariant
            i <= v@.len(),
            r@ == spec_join(spec_words(v@.subrange(0, i as int)), '-'),
            prev_is_space == (i == 0 || spec_is_whitespace(v@[i - 1])),
            any_word == (spec_words(v@.subrange(0, i as int)).len() > 0),
        decreases v@.len() - i,
    {
        let c = v[i];
        let ghost pre = v@.subrange(0, i as int);
        let ghost cur = v@.subrange(0, i + 1);
        assert(cur.drop_last() =~= pre);
        assert(cur.last() == c);
        let space = is_whitespace(c);
        if space {
        } else if !prev_is_space {
            assert(cur[cur.len() - 2] == v@[i - 1]);
            proof {
                lemma_words_nonempty(pre);
                lemma_join_extend_last(spec_words(pre), '-', c);
            }
            r.push(c);
        } else {
            proof {
                lemma_join_push(spec_words(pre), '-', c);
                if i > 0 {
                    assert(cur[cur.len() - 2] == v@[i - 1]);
                }
            }
            if any_word {
                r.push('-');
            }
            r.push(c);
            assert(r@ =~= spec_join(spec_words(cur), '-'));
        }
        prev_is_space = space;
        any_word = any_word || !space;
        i += 1;
    }
    assert(v@.subrange(0, v@.len() as int) =~= v@);
    r
}

/// The handle of a pot named `s`: lowercase, only letters, digits and
/// whitespace kept, words joined with hyphens.
pub fn slugify(s: &str) -> (r: String)
    ensures
        r@ == spec_slugify(s@),
{
    let lower = to_lowercase(s);
    let chars = chars_of(lower.as_str());
    let kept = slug_filter(&chars);
    let joined = join_words(&kept);
    string_from_chars(&joined)
}

} // verus!
