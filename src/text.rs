//! Case mapping and pattern matching, as the standard library and the `regex`
//! crate perform them.

use vstd::prelude::*;

verus! {

/// What `str::to_lowercase` makes of a text.
pub uninterp spec fn lower_of(s: Seq<char>) -> Seq<char>;

/// What `char::to_uppercase` makes of one character.
pub uninterp spec fn upper_of(c: char) -> Seq<char>;

/// Whether `pattern` compiles as a regular expression that matches somewhere
/// in `text`.
pub uninterp spec fn pattern_hits(pattern: Seq<char>, text: Seq<char>) -> bool;

/// Relies on `str::to_lowercase`: the result depends on the characters alone.
#[verifier::external_body]
pub(crate) fn lowercase(s: &str) -> (r: String)
    ensures
        r@ == lower_of(s@),
{
    s.to_lowercase()
}

/// Relies on `char::to_uppercase`: the result depends on the character alone.
#[verifier::external_body]
pub(crate) fn uppercase_char(c: char) -> (r: String)
    ensures
        r@ == upper_of(c),
{
    c.to_uppercase().to_string()
}

/// Relies on `regex::Regex::new` and `regex::Regex::is_match`: a pattern that
/// does not compile matches nothing; otherwise the answer depends on the
/// pattern and the text alone.
#[verifier::external_body]
pub(crate) fn pattern_matches(pattern: &str, text: &str) -> (r: bool)
    ensures
        r == pattern_hits(pattern@, text@),
{
    match regex::Regex::new(pattern) {
        Ok(re) => re.is_match(text),
        Err(_) => false,
    }
}

/// Some pattern of `patterns` matches `text`.
pub open spec fn hits_any(patterns: Seq<Seq<char>>, text: Seq<char>) -> bool {
    exists|i: int| 0 <= i < patterns.len() && pattern_hits(#[trigger] patterns[i], text)
}

/// The views of a sequence of texts.
pub open spec fn views_of(v: Seq<&str>) -> Seq<Seq<char>> {
    v.map_values(|s: &str| s@)
}

/// Tries the patterns in order and stops at the first that matches.
pub fn any_pattern_matches(patterns: &Vec<&str>, text: &str) -> (r: bool)
    ensures
        r == hits_any(views_of(patterns@), text@),
{
    let mut i: usize = 0;
    while i < patterns.len()
        invariant
            i <= patterns.len(),
            forall|j: int| 0 <= j < i ==> !pattern_hits(#[trigger] views_of(patterns@)[j], text@),
        decreases patterns.len() - i,
    {
        if pattern_matches(patterns[i], text) {
            assert(pattern_hits(views_of(patterns@)[i as int], text@));
            return true;
        }
        i = i + 1;
    }
    false
}

/// The characters of an optional text.
pub open spec fn opt_view(o: Option<String>) -> Option<Seq<char>> {
    match o {
        Some(s) => Some(s@),
        None => None,
    }
}

/// The characters of each text of a sequence.
pub open spec fn strings_view(v: Seq<String>) -> Seq<Seq<char>> {
    v.map_values(|s: String| s@)
}

/// Upper-cases the first character of a text and keeps the rest.
pub open spec fn upper_first(s: Seq<char>) -> Seq<char> {
    if s.len() == 0 {
        Seq::empty()
    } else {
        upper_of(s[0]) + s.drop_first()
    }
}

/// Upper-cases the first character of `s1`; the rest stays as it is.
pub fn first_letter_to_uppper_case(s1: String) -> (r: String)
    ensures
        r@ == upper_first(s1@),
{
    let n = s1.as_str().unicode_len();
    if n == 0 {
        return String::new();
    }
    let first = s1.as_str().get_char(0);
    let rest = s1.as_str().substring_char(1, n);
    assert(rest@ =~= s1@.drop_first());
    let head = uppercase_char(first);
    head.concat(rest)
}

} // verus!
