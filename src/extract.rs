//! Field extractors: typed fields read from fixed paths of a raw record.
//! Absence of a field is not an error here; the pipeline decides what it
//! means.

use vstd::prelude::*;
use crate::json::{Json, at, elements_of, member_count, text_of};
use crate::text::{first_letter_to_uppper_case, opt_view, strings_view, upper_first};

verus! {

/// One candidate date property: its identifier and what it stands for.
pub struct DateProperty {
    pub id: String,
    pub description: String,
}

/// The property that supplied a date, and the year read from it (negative
/// before the common era).
pub struct DatePropIdAndYear {
    pub date_prop_id: String,
    pub year: i64,
}

/// The identifiers of a priority list, in order.
pub open spec fn prop_ids(props: Seq<DateProperty>) -> Seq<Seq<char>> {
    props.map_values(|p: DateProperty| p.id@)
}

pub open spec fn id_of(v: Json) -> Option<Seq<char>> {
    text_of(at(v, "id"@))
}

pub open spec fn wikipedia_title_of(v: Json) -> Option<Seq<char>> {
    text_of(at(at(v, "sitelinks"@), "enwiki"@))
}

pub open spec fn label_of(v: Json) -> Option<Seq<char>> {
    text_of(at(at(v, "labels"@), "en"@))
}

/// The English description, with its first letter upper-cased.
pub open spec fn description_of(v: Json) -> Option<Seq<char>> {
    match text_of(at(at(v, "descriptions"@), "en"@)) {
        Some(d) => Some(upper_first(d)),
        None => None,
    }
}

/// The claim that a record makes under property `prop`.
pub open spec fn claim_of(v: Json, prop: Seq<char>) -> Json {
    at(at(v, "claims"@), prop)
}

/// The string elements of a sequence of values, in order.
pub open spec fn texts_in(items: Seq<Json>) -> Seq<Seq<char>>
    decreases items.len(),
{
    if items.len() == 0 {
        Seq::empty()
    } else {
        texts_in(items.drop_last()) + match text_of(items.last()) {
            Some(t) => seq![t],
            None => Seq::empty(),
        }
    }
}

/// The identifiers claimed under `prop`; `None` when the record has no such
/// claim array.
pub open spec fn claim_ids_of(v: Json, prop: Seq<char>) -> Option<Seq<Seq<char>>> {
    match elements_of(claim_of(v, prop)) {
        Some(items) => Some(texts_in(items)),
        None => None,
    }
}

pub open spec fn instance_of_ids_of(v: Json) -> Option<Seq<Seq<char>>> {
    claim_ids_of(v, "P31"@)
}

pub open spec fn occupation_ids_of(v: Json) -> Option<Seq<Seq<char>>> {
    claim_ids_of(v, "P106"@)
}

pub open spec fn sitelink_count_of(v: Json) -> Option<nat> {
    member_count(at(v, "sitelinks"@))
}

/// The first property, from position `i` of `props` on, whose claim array is
/// non-empty, with the first element of that array.
pub open spec fn first_date_from(v: Json, props: Seq<Seq<char>>, i: int) -> Option<(Seq<char>, Json)>
    decreases props.len() - i,
{
    if i < 0 || i >= props.len() {
        None
    } else {
        match elements_of(claim_of(v, props[i])) {
            Some(items) => if items.len() > 0 {
                Some((props[i], items[0]))
            } else {
                first_date_from(v, props, i + 1)
            },
            None => first_date_from(v, props, i + 1),
        }
    }
}

/// Position of the first `-` in `s` at or after `i`, or the length of `s`.
pub open spec fn dash_from(s: Seq<char>, i: int) -> int
    decreases s.len() - i,
{
    if i < 0 || i >= s.len() {
        s.len() as int
    } else if s[i] == '-' {
        i
    } else {
        dash_from(s, i + 1)
    }
}

pub open spec fn is_digit(c: char) -> bool {
    '0' <= c && c <= '9'
}

pub open spec fn all_digits(s: Seq<char>) -> bool {
    forall|i: int| 0 <= i < s.len() ==> is_digit(#[trigger] s[i])
}

/// The value of a string of decimal digits.
pub open spec fn digits_value(s: Seq<char>) -> int
    decreases s.len(),
{
    if s.len() == 0 {
        0
    } else {
        digits_value(s.drop_last()) * 10 + (s.last() as u32 - '0' as u32)
    }
}

/// The year of a date text: a leading `-` marks a year before the common era
/// and is stripped; the year is the decimal integer (an optional `+`, then
/// digits, fitting in `i64`) before the next `-`.
pub open spec fn year_of(t: Seq<char>) -> Option<int> {
    if t.len() == 0 {
        None
    } else {
        let bce = t[0] == '-';
        let start: int = if bce { 1 } else { 0 };
        let end = dash_from(t, start);
        let first: int = if start < end && t[start] == '+' { start + 1 } else { start };
        let digits = t.subrange(first, end);
        if digits.len() > 0 && all_digits(digits) && digits_value(digits) <= i64::MAX {
            Some(if bce { -digits_value(digits) } else { digits_value(digits) })
        } else {
            None
        }
    }
}

/// The winning date property of `props` and the year it gives.
pub open spec fn date_of(v: Json, props: Seq<Seq<char>>) -> Option<(Seq<char>, int)> {
    match first_date_from(v, props, 0) {
        Some((p, d)) => match text_of(d) {
            Some(t) => match year_of(t) {
                Some(y) => Some((p, y)),
                None => None,
            },
            None => None,
        },
        None => None,
    }
}

proof fn lemma_digits_value_nonneg(s: Seq<char>)
    requires
        all_digits(s),
    ensures
        digits_value(s) >= 0,
    decreases s.len(),
{
    if s.len() > 0 {
        assert(all_digits(s.drop_last())) by {
            assert forall|i: int| 0 <= i < s.drop_last().len() implies is_digit(
                #[trigger] s.drop_last()[i],
            ) by {
                assert(s.drop_last()[i] == s[i]);
            }
        }
        lemma_digits_value_nonneg(s.drop_last());
    }
}

/// A prefix of a digit string is worth no more than the whole.
proof fn lemma_digits_value_prefix(s: Seq<char>, j: int)
    requires
        all_digits(s),
        0 <= j <= s.len(),
    ensures
        digits_value(s.subrange(0, j)) <= digits_value(s),
    decreases s.len(),
{
    if j < s.len() {
        let t = s.drop_last();
        assert(all_digits(t)) by {
            assert forall|i: int| 0 <= i < t.len() implies is_digit(#[trigger] t[i]) by {
                assert(t[i] == s[i]);
            }
        }
        lemma_digits_value_prefix(t, j);
        assert(t.subrange(0, j) =~= s.subrange(0, j));
        lemma_digits_value_nonneg(t);
        assert(is_digit(s[s.len() - 1]));
    } else {
        assert(s.subrange(0, j) =~= s);
    }
}

/// Reads the year of a date text, as `year_of` describes.
pub fn parse_year(date: &str) -> (r: Option<i64>)
    ensures
        match r {
            Some(y) => year_of(date@) == Some(y as int),
            None => year_of(date@) is None,
        },
{
    let n = date.unicode_len();
    if n == 0 {
        return None;
    }
    let bce = date.get_char(0) == '-';
    let start: usize = if bce { 1 } else { 0 };
    let mut end: usize = start;
    while end < n
        invariant
            start <= end <= n,
            n == date@.len(),
            dash_from(date@, start as int) == dash_from(date@, end as int),
        ensures
            dash_from(date@, start as int) == end,
        decreases n - end,
    {
        if date.get_char(end) == '-' {
            break;
        }
        end = end + 1;
    }
    let mut first: usize = start;
    if start < end && date.get_char(start) == '+' {
        first = start + 1;
    }
    let ghost digits = date@.subrange(first as int, end as int);
    assert(year_of(date@) == if digits.len() > 0 && all_digits(digits) && digits_value(digits)
        <= i64::MAX {
        Some(if bce { -digits_value(digits) } else { digits_value(digits) })
    } else {
        None::<int>
    });
    if first == end {
        return None;
    }
    let mut acc: i64 = 0;
    let mut k: usize = first;
    while k < end
        invariant
            first <= k <= end,
            end <= n,
            n == date@.len(),
            digits == date@.subrange(first as int, end as int),
            year_of(date@) == if digits.len() > 0 && all_digits(digits) && digits_value(digits)
                <= i64::MAX {
                Some(if bce { -digits_value(digits) } else { digits_value(digits) })
            } else {
                None::<int>
            },
            acc >= 0,
            acc as int == digits_value(date@.subrange(first as int, k as int)),
            all_digits(date@.subrange(first as int, k as int)),
        decreases end - k,
    {
        let c = date.get_char(k);
        if c < '0' || c > '9' {
            assert(!is_digit(digits[k - first]));
            return None;
        }
        let digit = (c as u32 - '0' as u32) as i64;
        let ghost next = date@.subrange(first as int, k + 1);
        assert(next.drop_last() =~= date@.subrange(first as int, k as int));
        assert(all_digits(next)) by {
            assert forall|i: int| 0 <= i < next.len() implies is_digit(#[trigger] next[i]) by {
                if i < next.len() - 1 {
                    assert(next[i] == date@.subrange(first as int, k as int)[i]);
                }
            }
        }
        if acc > (i64::MAX - digit) / 10 {
            proof {
                assert(acc * 10 + digit > i64::MAX) by (nonlinear_arith)
                    requires
                        acc > (i64::MAX - digit) / 10,
                        0 <= digit <= 9,
                ;
                if all_digits(digits) {
                    lemma_digits_value_prefix(digits, k + 1 - first);
                    assert(digits.subrange(0, k + 1 - first) =~= next);
                }
            }
            return None;
        }
        assert(acc * 10 + digit <= i64::MAX) by (nonlinear_arith)
            requires
                acc <= (i64::MAX - digit) / 10,
                0 <= digit <= 9,
        ;
        acc = acc * 10 + digit;
        k = k + 1;
    }
    assert(date@.subrange(first as int, k as int) =~= digits);
    if bce {
        Some(-acc)
    } else {
        Some(acc)
    }
}

/// The text under `key`, or `None`.
fn text_at(v: &Json, key: &str) -> (r: Option<String>)
    ensures
        opt_view(r) == text_of(at(*v, key@)),
{
    match v.get(key) {
        Some(m) => m.as_text(),
        None => None,
    }
}

/// The text under `outer`, then `inner`, or `None`.
fn text_at2(v: &Json, outer: &str, inner: &str) -> (r: Option<String>)
    ensures
        opt_view(r) == text_of(at(at(*v, outer@), inner@)),
{
    match v.get(outer) {
        Some(m) => text_at(m, inner),
        None => None,
    }
}

pub fn get_id(item_json: &Json) -> (r: Option<String>)
    ensures
        opt_view(r) == id_of(*item_json),
{
    text_at(item_json, "id")
}

pub fn get_wikipedia_title(item_json: &Json) -> (r: Option<String>)
    ensures
        opt_view(r) == wikipedia_title_of(*item_json),
{
    text_at2(item_json, "sitelinks", "enwiki")
}

pub fn get_label(item_json: &Json) -> (r: Option<String>)
    ensures
        opt_view(r) == label_of(*item_json),
{
    text_at2(item_json, "labels", "en")
}

pub fn get_description(item_json: &Json) -> (r: Option<String>)
    ensures
        opt_view(r) == description_of(*item_json),
{
    match text_at2(item_json, "descriptions", "en") {
        Some(d) => Some(first_letter_to_uppper_case(d)),
        None => None,
    }
}

/// The claim array under property `prop`, if the record has one.
fn claim_items<'a>(item_json: &'a Json, prop: &str) -> (r: Option<&'a Vec<Json>>)
    ensures
        match r {
            Some(items) => elements_of(claim_of(*item_json, prop@)) == Some(items@),
            None => elements_of(claim_of(*item_json, prop@)) is None,
        },
{
    match item_json.get("claims") {
        Some(claims) => match claims.get(prop) {
            Some(c) => c.as_array(),
            None => None,
        },
        None => None,
    }
}

/// The identifiers claimed under `prop`, in order; elements that are not
/// strings are skipped.
pub fn get_claim_ids(item_json: &Json, prop: &str) -> (r: Option<Vec<String>>)
    ensures
        match r {
            Some(ids) => claim_ids_of(*item_json, prop@) == Some(strings_view(ids@)),
            None => claim_ids_of(*item_json, prop@) is None,
        },
{
    let items = match claim_items(item_json, prop) {
        Some(items) => items,
        None => return None,
    };
    let mut ids: Vec<String> = Vec::new();
    let mut i: usize = 0;
    assert(items@.subrange(0, 0) =~= Seq::<Json>::empty());
    while i < items.len()
        invariant
            i <= items.len(),
            strings_view(ids@) == texts_in(items@.subrange(0, i as int)),
        decreases items.len() - i,
    {
        let ghost before = ids@;
        assert(items@.subrange(0, i + 1).drop_last() =~= items@.subrange(0, i as int));
        match items[i].as_text() {
            Some(t) => {
                ids.push(t);
                assert(strings_view(ids@) =~= strings_view(before) + seq![t@]);
            },
            None => {},
        }
        i = i + 1;
    }
    assert(items@.subrange(0, items.len() as int) =~= items@);
    Some(ids)
}

/// The raw type identifiers ("instance of").
pub fn get_instance_of_ids(item_json: &Json) -> (r: Option<Vec<String>>)
    ensures
        match r {
            Some(ids) => instance_of_ids_of(*item_json) == Some(strings_view(ids@)),
            None => instance_of_ids_of(*item_json) is None,
        },
{
    get_claim_ids(item_json, "P31")
}

/// The raw occupation identifiers.
pub fn get_occupation_ids(item_json: &Json) -> (r: Option<Vec<String>>)
    ensures
        match r {
            Some(ids) => occupation_ids_of(*item_json) == Some(strings_view(ids@)),
            None => occupation_ids_of(*item_json) is None,
        },
{
    get_claim_ids(item_json, "P106")
}

pub fn get_num_sitelinks(item_json: &Json) -> (r: Option<usize>)
    ensures
        match r {
            Some(n) => sitelink_count_of(*item_json) == Some(n as nat),
            None => sitelink_count_of(*item_json) is None,
        },
{
    match item_json.get("sitelinks") {
        Some(s) => s.member_count(),
        None => None,
    }
}

/// The date of the first property of `date_props` for which the record has a
/// non-empty claim array, read from that array's first element.
pub fn get_date_prop_id_and_year(item_json: &Json, date_props: &Vec<DateProperty>) -> (r: Option<
    DatePropIdAndYear,
>)
    ensures
        match r {
            Some(d) => date_of(*item_json, prop_ids(date_props@)) == Some((d.date_prop_id@, d.year as int)),
            None => date_of(*item_json, prop_ids(date_props@)) is None,
        },
{
    let ghost props = prop_ids(date_props@);
    let mut i: usize = 0;
    while i < date_props.len()
        invariant
            i <= date_props.len(),
            props == prop_ids(date_props@),
            first_date_from(*item_json, props, 0) == first_date_from(*item_json, props, i as int),
        decreases date_props.len() - i,
    {
        assert(props[i as int] == date_props@[i as int].id@);
        match claim_items(item_json, date_props[i].id.as_str()) {
            Some(items) => {
                if items.len() > 0 {
                    let year = match items[0].as_text() {
                        Some(date) => parse_year(date.as_str()),
                        None => None,
                    };
                    return match year {
                        Some(y) => Some(DatePropIdAndYear { date_prop_id: date_props[i].id.clone(), year: y }),
                        None => None,
                    };
                }
            },
            None => {},
        }
        i = i + 1;
    }
    None
}

} // verus!
