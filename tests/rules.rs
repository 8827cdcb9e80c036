use wiki_items::extract::parse_year;
use wiki_items::page_views::{views_of_first, Items};
use wiki_items::request::{pause_before_parse, title_key};
use wiki_items::rules::{
    contains_label, enough_page_views, enough_sitelinks, ok_description, ok_instance_of, ok_label,
};
use wiki_items::text::first_letter_to_uppper_case;
use wiki_items::wikipedia::{first_page, Wikipedia};

fn labels(v: &[&str]) -> Vec<String> {
    v.iter().map(|s| s.to_string()).collect()
}

#[test]
fn label_list_of_is_rejected() {
    assert!(!ok_label("List of capital cities"));
}

#[test]
fn label_blocklist_ignores_case_and_matches_years() {
    assert!(!ok_label("LIST OF RIVERS"));
    assert!(!ok_label("20th Century"));
    assert!(!ok_label("Events of 1969"));
    assert!(!ok_label("Flag of France"));
    assert!(!ok_label("Heathrow Airport"));
    assert!(!ok_label("Wikipedia"));
    assert!(ok_label("Albert Einstein"));
    assert!(ok_label("Apollo 11"));
}

#[test]
fn description_moon_is_rejected() {
    assert!(!ok_description("a moon of Jupiter"));
    let normalized = first_letter_to_uppper_case("a moon of Jupiter".to_string());
    assert_eq!(normalized, "A moon of Jupiter");
    assert!(!ok_description(&normalized));
}

#[test]
fn description_blocklist() {
    assert!(!ok_description("Species of insect"));
    assert!(!ok_description("American FOOTBALL player"));
    assert!(!ok_description("Decade"));
    assert!(ok_description("German-born theoretical physicist"));
    assert!(ok_description("Painting by Leonardo da Vinci"));
}

#[test]
fn first_letter_upper_cased() {
    assert_eq!(first_letter_to_uppper_case(String::new()), "");
    assert_eq!(first_letter_to_uppper_case("élan vital".to_string()), "Élan vital");
    assert_eq!(first_letter_to_uppper_case("ß".to_string()), "SS");
    assert_eq!(first_letter_to_uppper_case("Already".to_string()), "Already");
}

#[test]
fn year_before_common_era() {
    assert_eq!(parse_year("-0044-01-01"), Some(-44));
}

#[test]
fn year_of_common_era() {
    assert_eq!(parse_year("1969-07-20"), Some(1969));
}

#[test]
fn year_malformed_dates() {
    assert_eq!(parse_year(""), None);
    assert_eq!(parse_year("-"), None);
    assert_eq!(parse_year("--44"), None);
    assert_eq!(parse_year("19x9-01-01"), None);
    assert_eq!(parse_year("+0012-03-04"), Some(12));
    assert_eq!(parse_year("2001"), Some(2001));
    assert_eq!(parse_year("9223372036854775807-01"), Some(i64::MAX));
    assert_eq!(parse_year("9223372036854775808-01"), None);
    assert_eq!(parse_year("-9223372036854775807"), Some(-i64::MAX));
}

#[test]
fn taxon_types_rejected() {
    assert!(!ok_instance_of(&labels(&["taxon", "species"])));
    assert!(ok_instance_of(&labels(&["human"])));
    assert!(ok_instance_of(&labels(&[])));
    assert!(contains_label(&labels(&["a", "human"]), "human"));
    assert!(!contains_label(&labels(&["humans"]), "human"));
}

#[test]
fn sitelink_threshold() {
    assert!(!enough_sitelinks(0));
    assert!(!enough_sitelinks(14));
    assert!(enough_sitelinks(15));
    assert!(enough_sitelinks(20));
}

#[test]
fn popularity_general_cascade_1850() {
    assert!(!enough_page_views(1850, &labels(&["painting"]), 14000));
    assert!(enough_page_views(1850, &labels(&["painting"]), 15000));
}

#[test]
fn popularity_human_1850() {
    assert!(enough_page_views(1850, &labels(&["human"]), 16000));
    assert!(!enough_page_views(1850, &labels(&["human"]), 9999));
}

#[test]
fn popularity_cascades_by_era() {
    let human = labels(&["human"]);
    let other = labels(&["film"]);
    assert!(!enough_page_views(1990, &human, 99999));
    assert!(enough_page_views(1990, &human, 100000));
    assert!(!enough_page_views(1990, &other, 39999));
    assert!(enough_page_views(1990, &other, 40000));
    assert!(!enough_page_views(1930, &other, 24999));
    assert!(enough_page_views(1930, &other, 25000));
    assert!(!enough_page_views(1910, &human, 24999));
    assert!(enough_page_views(1910, &human, 25000));
    assert!(!enough_page_views(-44, &other, 9999));
    assert!(enough_page_views(-44, &other, 10000));
}

#[test]
fn rate_limit_pause_is_fixed() {
    assert_eq!(pause_before_parse(429), 30);
    assert_eq!(pause_before_parse(200), 0);
    assert_eq!(pause_before_parse(500), 0);
}

fn bucket(views: usize) -> Items {
    Items {
        access: "all-access".to_string(),
        agent: "all-agents".to_string(),
        article: "Apollo_11".to_string(),
        granularity: "monthly".to_string(),
        project: "en.wikipedia".to_string(),
        timestamp: "2021010100".to_string(),
        views,
    }
}

#[test]
fn page_views_first_bucket() {
    assert_eq!(views_of_first(&vec![]), None);
    assert_eq!(views_of_first(&vec![bucket(7), bucket(9)]), Some(7));
}

#[test]
fn wikipedia_first_page() {
    assert!(first_page(vec![]).is_none());
    let page = first_page(vec![
        Wikipedia { label: "Apollo 11".to_string(), image: "A.jpg".to_string() },
        Wikipedia { label: "Other".to_string(), image: "B.jpg".to_string() },
    ])
    .unwrap();
    assert_eq!(page.label, "Apollo 11");
    assert_eq!(page.image, "A.jpg");
}

#[test]
fn title_key_replaces_spaces() {
    assert_eq!(title_key("Ada Lovelace"), "Ada_Lovelace");
    assert_eq!(title_key(" a  b "), "_a__b_");
    assert_eq!(title_key("Apollo_11"), "Apollo_11");
    assert_eq!(title_key(""), "");
}
