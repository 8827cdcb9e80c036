use std::cell::Cell;
use wiki_items::extract::{get_claim_ids, get_date_prop_id_and_year, get_num_sitelinks, DateProperty};
use wiki_items::json::Json;
use wiki_items::label_cache::{labels_found, LabelCache};
use wiki_items::process::{decide, process_item, screen};
use wiki_items::wikipedia::Wikipedia;

fn text(s: &str) -> Json {
    Json::Text(s.to_string())
}

fn object(entries: Vec<(&str, Json)>) -> Json {
    Json::Object(entries.into_iter().map(|(k, v)| (k.to_string(), v)).collect())
}

fn texts(v: &[&str]) -> Json {
    Json::Array(v.iter().map(|s| text(s)).collect())
}

fn date_props() -> Vec<DateProperty> {
    [("P575", "time of discovery or invention"), ("P570", "date of death"), ("P569", "date of birth")]
        .iter()
        .map(|(id, d)| DateProperty { id: id.to_string(), description: d.to_string() })
        .collect()
}

fn sitelinks(n: usize, title: &str) -> Json {
    let mut entries = vec![("enwiki".to_string(), text(title))];
    for i in 1..n {
        entries.push((format!("wiki{}", i), text("x")));
    }
    Json::Object(entries)
}

fn record(label: &str, description: &str, claims: Vec<(&str, Json)>, n_sitelinks: usize) -> Json {
    object(vec![
        ("id", text("Q1")),
        ("labels", object(vec![("en", text(label))])),
        ("descriptions", object(vec![("en", text(description))])),
        ("claims", object(claims)),
        ("sitelinks", sitelinks(n_sitelinks, "Ada Lovelace")),
    ])
}

fn label_for(id: &str) -> Option<String> {
    match id {
        "Q5" => Some("human".to_string()),
        "Q16521" => Some("taxon".to_string()),
        "Q7432" => Some("species".to_string()),
        "Q82594" => Some("computer scientist".to_string()),
        _ => None,
    }
}

fn page() -> Option<Wikipedia> {
    Some(Wikipedia { label: "Ada Lovelace".to_string(), image: "Ada.jpg".to_string() })
}

#[test]
fn end_to_end_accepts_a_popular_human() {
    let v = record(
        "Ada Lovelace",
        "english mathematician",
        vec![("P569", texts(&["1990-12-10"])), ("P31", texts(&["Q5"]))],
        20,
    );
    let mut cache = LabelCache::new();
    let item = process_item(&v, &date_props(), &mut cache, &|id: &str| label_for(id), &|_t: &str| Some(200000), &|_t: &str| page())
        .unwrap();
    assert_eq!(item.id, "Q1");
    assert_eq!(item.label, "Ada Lovelace");
    assert_eq!(item.description, "English mathematician");
    assert_eq!(item.wikipedia_title, "Ada Lovelace");
    assert_eq!(item.instance_of, vec!["human".to_string()]);
    assert!(item.occupations.is_none());
    assert_eq!(item.page_views, 200000);
    assert_eq!(item.year, 1990);
    assert_eq!(item.date_prop_id, "P569");
    assert_eq!(item.image, "Ada.jpg");
    assert_eq!(cache.lookup("Q5"), Some("human".to_string()));
}

#[test]
fn occupations_kept_when_claimed() {
    let v = record(
        "Ada Lovelace",
        "english mathematician",
        vec![
            ("P569", texts(&["1990-12-10"])),
            ("P31", texts(&["Q5"])),
            ("P106", texts(&["Q82594", "Q999"])),
        ],
        20,
    );
    let mut cache = LabelCache::new();
    let item = process_item(&v, &date_props(), &mut cache, &|id: &str| label_for(id), &|_t: &str| Some(200000), &|_t: &str| page())
        .unwrap();
    assert_eq!(item.occupations, Some(vec!["computer scientist".to_string()]));
}

#[test]
fn taxon_record_rejected() {
    let v = record(
        "Panthera leo",
        "big cat",
        vec![("P569", texts(&["1758-01-01"])), ("P31", texts(&["Q16521", "Q7432"]))],
        40,
    );
    let mut cache = LabelCache::new();
    let views = Cell::new(0);
    let r = process_item(&v, &date_props(), &mut cache, &|id: &str| label_for(id), &|_t: &str| {
        views.set(views.get() + 1);
        Some(10000000)
    }, &|_t: &str| page());
    assert!(r.is_none());
    assert_eq!(views.get(), 0);
}

#[test]
fn record_without_date_rejected() {
    let v = record(
        "Ada Lovelace",
        "english mathematician",
        vec![("P31", texts(&["Q5"])), ("P580", texts(&["1990-01-01"])), ("P570", Json::Array(vec![]))],
        20,
    );
    assert!(get_date_prop_id_and_year(&v, &date_props()).is_none());
    let calls = Cell::new(0);
    let mut cache = LabelCache::new();
    let r = process_item(&v, &date_props(), &mut cache, &|id: &str| {
        calls.set(calls.get() + 1);
        label_for(id)
    }, &|_t: &str| Some(200000), &|_t: &str| page());
    assert!(r.is_none());
    assert_eq!(calls.get(), 0);
    assert_eq!(cache.len(), 0);
}

#[test]
fn list_label_rejected_in_pipeline() {
    let v = record(
        "List of capital cities",
        "wikimedia list article",
        vec![("P569", texts(&["1990-12-10"])), ("P31", texts(&["Q5"]))],
        20,
    );
    assert!(screen(&v, &date_props()).is_none());
}

#[test]
fn moon_description_rejected_in_pipeline() {
    let v = record("Io", "a moon of Jupiter", vec![("P575", texts(&["1610-01-08"])), ("P31", texts(&["Q5"]))], 20);
    assert!(screen(&v, &date_props()).is_none());
}

#[test]
fn date_priority_first_listed_wins() {
    let v = record(
        "Ada Lovelace",
        "english mathematician",
        vec![
            ("P569", texts(&["1815-12-10"])),
            ("P570", texts(&["1852-11-27"])),
            ("P31", texts(&["Q5"])),
        ],
        20,
    );
    let d = get_date_prop_id_and_year(&v, &date_props()).unwrap();
    assert_eq!(d.date_prop_id, "P570");
    assert_eq!(d.year, 1852);
    let bce = record("Caesar", "roman general", vec![("P570", texts(&["-0044-03-15"])), ("P31", texts(&["Q5"]))], 20);
    let d = get_date_prop_id_and_year(&bce, &date_props()).unwrap();
    assert_eq!(d.year, -44);
}

#[test]
fn few_sitelinks_rejected_after_resolution() {
    let v = record(
        "Ada Lovelace",
        "english mathematician",
        vec![("P569", texts(&["1990-12-10"])), ("P31", texts(&["Q5"]))],
        14,
    );
    assert_eq!(get_num_sitelinks(&v), Some(14));
    let mut cache = LabelCache::new();
    let r = process_item(&v, &date_props(), &mut cache, &|id: &str| label_for(id), &|_t: &str| Some(200000), &|_t: &str| page());
    assert!(r.is_none());
    assert_eq!(cache.len(), 1);
}

#[test]
fn unpopular_or_missing_page_rejected() {
    let v = record(
        "Ada Lovelace",
        "english mathematician",
        vec![("P569", texts(&["1850-12-10"])), ("P31", texts(&["Q5"]))],
        20,
    );
    let mut cache = LabelCache::new();
    assert!(process_item(&v, &date_props(), &mut cache, &|id: &str| label_for(id), &|_t: &str| Some(9999), &|_t: &str| page()).is_none());
    assert!(process_item(&v, &date_props(), &mut cache, &|id: &str| label_for(id), &|_t: &str| None, &|_t: &str| page()).is_none());
    assert!(process_item(&v, &date_props(), &mut cache, &|id: &str| label_for(id), &|_t: &str| Some(16000), &|_t: &str| None).is_none());
    assert!(process_item(&v, &date_props(), &mut cache, &|id: &str| label_for(id), &|_t: &str| Some(16000), &|_t: &str| page()).is_some());
}

#[test]
fn second_resolution_served_from_cache() {
    let calls = Cell::new(0);
    let fetch = |id: &str| {
        calls.set(calls.get() + 1);
        label_for(id)
    };
    let mut cache = LabelCache::new();
    let first = cache.resolve("Q5", &fetch);
    let second = cache.resolve("Q5", &fetch);
    assert_eq!(first, Some("human".to_string()));
    assert_eq!(first, second);
    assert_eq!(calls.get(), 1);
}

#[test]
fn failed_resolution_not_cached() {
    let calls = Cell::new(0);
    let fetch = |id: &str| {
        calls.set(calls.get() + 1);
        label_for(id)
    };
    let mut cache = LabelCache::new();
    assert_eq!(cache.resolve("Q999", &fetch), None);
    assert_eq!(cache.lookup("Q999"), None);
    assert_eq!(cache.len(), 0);
    let outcomes = cache.resolve_all(&vec!["Q5".to_string(), "Q999".to_string(), "Q5".to_string()], &fetch);
    assert_eq!(outcomes, vec![Some("human".to_string()), None, Some("human".to_string())]);
    assert_eq!(labels_found(&outcomes), vec!["human".to_string(), "human".to_string()]);
    assert_eq!(calls.get(), 3);
}

#[test]
fn claim_ids_skip_non_strings() {
    let v = record("X", "y", vec![("P31", Json::Array(vec![text("Q5"), Json::Null, text("Q6")]))], 1);
    assert_eq!(get_claim_ids(&v, "P31"), Some(vec!["Q5".to_string(), "Q6".to_string()]));
    assert_eq!(get_claim_ids(&v, "P106"), None);
}

fn screened_ada(year: &str, n_sitelinks: usize) -> wiki_items::process::Screened {
    let v = record(
        "Ada Lovelace",
        "english mathematician",
        vec![("P569", texts(&[year])), ("P31", texts(&["Q5"]))],
        n_sitelinks,
    );
    screen(&v, &date_props()).unwrap()
}

#[test]
fn decide_on_outside_results() {
    let human = vec!["human".to_string()];
    let item = decide(screened_ada("1990-12-10", 20), human.clone(), None, Some(200000), page()).unwrap();
    assert_eq!(item.page_views, 200000);
    assert_eq!(item.label, "Ada Lovelace");
    assert_eq!(item.image, "Ada.jpg");
    assert_eq!(item.year, 1990);
    assert!(decide(screened_ada("1990-12-10", 20), human.clone(), None, Some(99999), page()).is_none());
    assert!(decide(screened_ada("1990-12-10", 20), human.clone(), None, None, page()).is_none());
    assert!(decide(screened_ada("1990-12-10", 20), human.clone(), None, Some(200000), None).is_none());
    assert!(decide(screened_ada("1990-12-10", 14), human.clone(), None, Some(200000), page()).is_none());
    assert!(decide(screened_ada("1990-12-10", 20), vec!["taxon".to_string()], None, Some(200000), page()).is_none());
    assert!(decide(screened_ada("1850-12-10", 20), human.clone(), None, Some(16000), page()).is_some());
    assert!(decide(screened_ada("1850-12-10", 20), human, None, Some(9999), page()).is_none());
}

#[test]
fn screen_reads_fields() {
    let s = screened_ada("-0044-03-15", 20);
    assert_eq!(s.id, "Q1");
    assert_eq!(s.label, "Ada Lovelace");
    assert_eq!(s.description, "English mathematician");
    assert_eq!(s.wikipedia_title, "Ada Lovelace");
    assert_eq!(s.date_prop_id, "P569");
    assert_eq!(s.year, -44);
    assert_eq!(s.instance_of_ids, vec!["Q5".to_string()]);
    assert!(s.occupation_ids.is_none());
    assert_eq!(s.num_sitelinks, Some(20));
}

#[test]
fn screen_needs_type_claim() {
    let v = record("Ada Lovelace", "english mathematician", vec![("P569", texts(&["1990-12-10"]))], 20);
    assert!(screen(&v, &date_props()).is_none());
}

#[test]
fn json_member_lookup() {
    let v = object(vec![("a", text("x")), ("b", Json::Null)]);
    assert!(matches!(v.get("a"), Some(Json::Text(s)) if s == "x"));
    assert!(matches!(v.get("b"), Some(Json::Null)));
    assert!(v.get("c").is_none());
    assert!(text("a").get("a").is_none());
    assert_eq!(v.member_count(), Some(2));
    assert_eq!(text("q").as_text(), Some("q".to_string()));
    assert!(Json::Null.as_array().is_none());
}
