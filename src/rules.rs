//! The qualification rules: independent predicates over extracted fields.

use vstd::prelude::*;
use crate::text::{any_pattern_matches, hits_any, lower_of, lowercase, views_of};

verus! {

/// Patterns that disqualify a label: dates, meta pages and dull subjects.
pub open spec fn label_patterns() -> Seq<Seq<char>> {
    seq![
        "century"@,
        "\\d\\d\\d\\d"@,
        "wikipedia"@,
        "list of"@,
        "airport"@,
        "flag of"@,
    ]
}

/// Patterns that disqualify a description: astronomy, chemistry,
/// administrative places, sports, date ranges and species.
pub open spec fn description_patterns() -> Seq<Seq<char>> {
    seq![
        "galaxy"@, "constellation"@, "star"@, "planet"@, "nebula"@, "moon"@,
        "supernova"@, "asteroid"@, "cluster"@, "natural satellite"@,
        "compound"@, "element"@,
        "region"@, "state"@, "capital"@, "borough"@, "community"@, "department"@,
        "province"@, "county"@, "city"@, "town"@, "commune"@, "federal subject"@,
        "football"@, "basketball"@, "baseball"@, "esportiva"@, "sport"@, "team"@,
        "decade"@, "domain"@,
        "species"@,
    ]
}

fn label_blocklist() -> (r: Vec<&'static str>)
    ensures
        views_of(r@) == label_patterns(),
{
    let r = vec!["century", "\\d\\d\\d\\d", "wikipedia", "list of", "airport", "flag of"];
    assert(views_of(r@) =~= label_patterns());
    r
}

fn description_blocklist() -> (r: Vec<&'static str>)
    ensures
        views_of(r@) == description_patterns(),
{
    let r = vec![
        "galaxy", "constellation", "star", "planet", "nebula", "moon",
        "supernova", "asteroid", "cluster", "natural satellite",
        "compound", "element",
        "region", "state", "capital", "borough", "community", "department",
        "province", "county", "city", "town", "commune", "federal subject",
        "football", "basketball", "baseball", "esportiva", "sport", "team",
        "decade", "domain",
        "species",
    ];
    assert(views_of(r@) =~= description_patterns());
    r
}

/// A label qualifies when no label pattern matches its lower-cased form.
pub open spec fn label_ok(label: Seq<char>) -> bool {
    !hits_any(label_patterns(), lower_of(label))
}

/// A description qualifies when no description pattern matches its
/// lower-cased form.
pub open spec fn description_ok(description: Seq<char>) -> bool {
    !hits_any(description_patterns(), lower_of(description))
}

/// Whether `s` is among `labels`.
pub open spec fn has_label(labels: Seq<String>, s: Seq<char>) -> bool {
    exists|i: int| 0 <= i < labels.len() && (#[trigger] labels[i])@ == s
}

/// Records typed as a taxon do not qualify.
pub open spec fn instance_of_ok(instance_of: Seq<String>) -> bool {
    !has_label(instance_of, "taxon"@)
}

/// The least number of sitelinks a record needs.
pub const MIN_SITELINKS: usize = 15;

/// Views needed under the cascade for humans, by year.
pub open spec fn human_min_views(year: int) -> int {
    if year > 1920 {
        100000
    } else if year > 1900 {
        25000
    } else if year > 1800 {
        15000
    } else {
        10000
    }
}

/// Views needed under the cascade for every record, by year.
pub open spec fn general_min_views(year: int) -> int {
    if year > 1960 {
        40000
    } else if year > 1900 {
        25000
    } else if year > 1800 {
        15000
    } else {
        10000
    }
}

/// The popularity policy: every record clears the general cascade, and a
/// human clears the human cascade as well.
pub open spec fn page_views_ok(year: int, is_human: bool, page_views: int) -> bool {
    &&& page_views >= general_min_views(year)
    &&& is_human ==> page_views >= human_min_views(year)
}

/// Rule on labels: rejects a label that any label pattern matches, ignoring
/// case.
pub fn ok_label(label: &str) -> (r: bool)
    ensures
        r == label_ok(label@),
{
    let lowered = lowercase(label);
    let patterns = label_blocklist();
    !any_pattern_matches(&patterns, lowered.as_str())
}

/// Rule on descriptions: rejects a description that any description pattern
/// matches, ignoring case.
pub fn ok_description(description: &str) -> (r: bool)
    ensures
        r == description_ok(description@),
{
    let lowered = lowercase(description);
    let patterns = description_blocklist();
    !any_pattern_matches(&patterns, lowered.as_str())
}

/// Whether `labels` holds `target`.
pub fn contains_label(labels: &Vec<String>, target: &str) -> (r: bool)
    ensures
        r == has_label(labels@, target@),
{
    let wanted = String::from_str(target);
    let mut i: usize = 0;
    while i < labels.len()
        invariant
            i <= labels.len(),
            wanted@ == target@,
            forall|j: int| 0 <= j < i ==> (#[trigger] labels@[j])@ != target@,
        decreases labels.len() - i,
    {
        if labels[i] == wanted {
            return true;
        }
        i = i + 1;
    }
    false
}

/// Rule on types: rejects records typed as a taxon.
pub fn ok_instance_of(instance_of: &Vec<String>) -> (r: bool)
    ensures
        r == instance_of_ok(instance_of@),
{
    !contains_label(instance_of, "taxon")
}

/// Rule on cross-references: at least fifteen sitelinks.
pub fn enough_sitelinks(num_sitelinks: usize) -> (r: bool)
    ensures
        r == (num_sitelinks >= MIN_SITELINKS),
{
    num_sitelinks >= MIN_SITELINKS
}

/// Popularity rule, conditioned on the year and on whether the record is
/// typed as a human.
pub fn enough_page_views(year: i64, instance_of: &Vec<String>, page_views: usize) -> (r: bool)
    ensures
        r == page_views_ok(year as int, has_label(instance_of@, "human"@), page_views as int),
{
    if contains_label(instance_of, "human") {
        if year > 1920 && page_views < 100000 {
            return false;
        } else if year > 1900 && page_views < 25000 {
            return false;
        } else if year > 1800 && page_views < 15000 {
            return false;
        } else if page_views < 10000 {
            return false;
        }
    }
    if year > 1960 && page_views < 40000 {
        false
    } else if year > 1900 && page_views < 25000 {
        false
    } else if year > 1800 && page_views < 15000 {
        false
    } else {
        page_views >= 10000
    }
}

} // verus!
