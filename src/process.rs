//! The evaluation pipeline: extraction, then the rules in their fixed order,
//! with the three resolvers called only once every earlier rule has passed.

use vstd::prelude::*;
use crate::extract::{
    DateProperty, DatePropIdAndYear, date_of, description_of, first_date_from, get_date_prop_id_and_year,
    get_description, get_id, get_instance_of_ids, get_label, get_num_sitelinks, get_occupation_ids,
    get_wikipedia_title, id_of, instance_of_ids_of, label_of, occupation_ids_of, prop_ids,
    sitelink_count_of, wikipedia_title_of, claim_of,
};
use crate::item::Item;
use crate::json::{Json, elements_of};
use crate::label_cache::{LabelCache, found, labels_found, resolved_per_position};
use crate::rules::{
    MIN_SITELINKS, description_ok, enough_page_views, enough_sitelinks, has_label, instance_of_ok,
    label_ok, ok_description, ok_instance_of, ok_label, page_views_ok,
};
use crate::text::strings_view;
use crate::wikipedia::Wikipedia;

verus! {

/// The fields of a record that passed the rules that need no outside call:
/// label and description (rules on both), identifier, canonical title, date,
/// and a claim array of types.
pub struct Screened {
    pub id: String,
    pub label: String,
    pub description: String,
    pub wikipedia_title: String,
    pub date_prop_id: String,
    pub year: i64,
    pub instance_of_ids: Vec<String>,
    pub occupation_ids: Option<Vec<String>>,
    pub num_sitelinks: Option<usize>,
}

/// The rules that need no outside call, in their order: a label that no label
/// pattern matches, a description that no description pattern matches, an
/// identifier, a canonical title, a date, and a claim array of types.
pub open spec fn screen_ok(v: Json, props: Seq<Seq<char>>) -> bool {
    &&& label_of(v) is Some
    &&& label_ok(label_of(v)->0)
    &&& description_of(v) is Some
    &&& description_ok(description_of(v)->0)
    &&& id_of(v) is Some
    &&& wikipedia_title_of(v) is Some
    &&& date_of(v, props) is Some
    &&& instance_of_ids_of(v) is Some
}

/// `s` holds the fields of `v` under the priority list `props`.
pub open spec fn screened_from(s: Screened, v: Json, props: Seq<Seq<char>>) -> bool {
    &&& Some(s.id@) == id_of(v)
    &&& Some(s.label@) == label_of(v)
    &&& Some(s.description@) == description_of(v)
    &&& Some(s.wikipedia_title@) == wikipedia_title_of(v)
    &&& Some((s.date_prop_id@, s.year as int)) == date_of(v, props)
    &&& Some(strings_view(s.instance_of_ids@)) == instance_of_ids_of(v)
    &&& match s.occupation_ids {
        Some(ids) => occupation_ids_of(v) == Some(strings_view(ids@)),
        None => occupation_ids_of(v) is None,
    }
    &&& match s.num_sitelinks {
        Some(n) => sitelink_count_of(v) == Some(n as nat),
        None => sitelink_count_of(v) is None,
    }
}

/// What an accepted item owes to its record: every rule passed, and the
/// fields that come from the record are the record's.
pub open spec fn accepted(item: Item, v: Json, props: Seq<Seq<char>>) -> bool {
    &&& screen_ok(v, props)
    &&& Some(item.id@) == id_of(v)
    &&& Some(item.description@) == description_of(v)
    &&& Some(item.wikipedia_title@) == wikipedia_title_of(v)
    &&& Some((item.date_prop_id@, item.year as int)) == date_of(v, props)
    &&& instance_of_ok(item.instance_of@)
    &&& (item.occupations is Some <==> occupation_ids_of(v) is Some)
    &&& sitelink_count_of(v) is Some
    &&& sitelink_count_of(v)->0 >= MIN_SITELINKS
    &&& page_views_ok(
        item.year as int,
        has_label(item.instance_of@, "human"@),
        item.page_views as int,
    )
}

/// `l` holds `s` exactly when its view does.
proof fn lemma_has_label_view(l: Seq<String>, s: Seq<char>)
    ensures
        has_label(l, s) <==> strings_view(l).contains(s),
{
    if has_label(l, s) {
        let i = choose|i: int| 0 <= i < l.len() && (#[trigger] l[i])@ == s;
        assert(strings_view(l)[i] == s);
    }
    if strings_view(l).contains(s) {
        let i = choose|i: int| 0 <= i < strings_view(l).len() && strings_view(l)[i] == s;
        assert(l[i]@ == s);
    }
}

/// Whether `k` is one of the type or occupation identifiers that `v` claims.
pub open spec fn claimed_id(v: Json, k: Seq<char>) -> bool {
    ||| instance_of_ids_of(v) is Some && instance_of_ids_of(v)->0.contains(k)
    ||| occupation_ids_of(v) is Some && occupation_ids_of(v)->0.contains(k)
}

/// The rules between label resolution and the popularity call: no taxon among
/// the types found, and enough sitelinks.
pub open spec fn resolved_rules_ok(v: Json, types: Seq<Seq<char>>) -> bool {
    &&& !types.contains("taxon"@)
    &&& sitelink_count_of(v) is Some
    &&& sitelink_count_of(v)->0 >= MIN_SITELINKS
}

/// A popularity was found and clears the policy for the record's year and
/// types.
pub open spec fn views_pass(v: Json, props: Seq<Seq<char>>, types: Seq<Seq<char>>, page_views: Option<usize>) -> bool {
    &&& page_views is Some
    &&& page_views_ok((date_of(v, props)->0).1, types.contains("human"@), page_views->0 as int)
}

/// One evaluation of a screened record `v`, in which the cache went from
/// `before` over `middle` (types resolved) to `after`:
/// - `types` are the outcomes for the record's type identifiers, position by
///   position, and `occupations` those for its occupation identifiers, which
///   are resolved only when no taxon was found;
/// - the popularity service was asked, with the canonical title, exactly when
///   the types and the sitelinks pass, and gave `page_views`;
/// - the page-info service was asked, with the canonical title, exactly when
///   the popularity passes as well, and gave `page`;
/// - the result is an item exactly when a page came back, and the item holds
///   the labels found, in order, and what the services gave.
pub open spec fn evaluation<FL, FV, FW>(
    v: Json,
    props: Seq<Seq<char>>,
    before: Map<Seq<char>, Seq<char>>,
    middle: Map<Seq<char>, Seq<char>>,
    after: Map<Seq<char>, Seq<char>>,
    types: Seq<Option<String>>,
    occupations: Seq<Option<String>>,
    page_views: Option<usize>,
    page: Option<Wikipedia>,
    fetch_label: &FL,
    fetch_page_views: &FV,
    fetch_wikipedia: &FW,
    r: Option<Item>,
) -> bool where
    FL: Fn(&str) -> Option<String>,
    FV: Fn(&str) -> Option<usize>,
    FW: Fn(&str) -> Option<Wikipedia>,
 {
    let title = wikipedia_title_of(v)->0;
    let found_types = found(types);
    let asked_views = resolved_rules_ok(v, found_types);
    let asked_page = asked_views && views_pass(v, props, found_types, page_views);
    &&& resolved_per_position(instance_of_ids_of(v)->0, types, before, middle, fetch_label)
    &&& if !found_types.contains("taxon"@) && occupation_ids_of(v) is Some {
        resolved_per_position(occupation_ids_of(v)->0, occupations, middle, after, fetch_label)
    } else {
        after == middle
    }
    &&& if asked_views {
        exists|t: &str| t@ == title && #[trigger] fetch_page_views.ensures((t,), page_views)
    } else {
        page_views is None
    }
    &&& if asked_page {
        exists|t: &str| t@ == title && #[trigger] fetch_wikipedia.ensures((t,), page)
    } else {
        page is None
    }
    &&& (r is Some <==> asked_page && page is Some)
    &&& r is Some ==> {
        let item = r->0;
        &&& strings_view(item.instance_of@) == found_types
        &&& Some(item.page_views) == page_views
        &&& Some(Wikipedia { label: item.label, image: item.image }) == page
        &&& match occupation_ids_of(v) {
            Some(_) => item.occupations is Some && strings_view(item.occupations->0@) == found(occupations),
            None => item.occupations is None,
        }
    }
}

/// Reads the fields of a record and applies the rules that need no outside
/// call; `None` exactly when one of them fails.
pub fn screen(item_json: &Json, date_props: &Vec<DateProperty>) -> (r: Option<Screened>)
    ensures
        r is Some <==> screen_ok(*item_json, prop_ids(date_props@)),
        r is Some ==> screened_from(r->0, *item_json, prop_ids(date_props@)),
{
    let label = match get_label(item_json) {
        Some(l) => l,
        None => return None,
    };
    if !ok_label(label.as_str()) {
        return None;
    }
    let description = match get_description(item_json) {
        Some(d) => d,
        None => return None,
    };
    if !ok_description(description.as_str()) {
        return None;
    }
    let id = match get_id(item_json) {
        Some(i) => i,
        None => return None,
    };
    let wikipedia_title = match get_wikipedia_title(item_json) {
        Some(t) => t,
        None => return None,
    };
    let DatePropIdAndYear { date_prop_id, year } = match get_date_prop_id_and_year(
        item_json,
        date_props,
    ) {
        Some(d) => d,
        None => return None,
    };
    let instance_of_ids = match get_instance_of_ids(item_json) {
        Some(ids) => ids,
        None => return None,
    };
    let occupation_ids = get_occupation_ids(item_json);
    let num_sitelinks = get_num_sitelinks(item_json);
    Some(
        Screened {
            id,
            label,
            description,
            wikipedia_title,
            date_prop_id,
            year,
            instance_of_ids,
            occupation_ids,
            num_sitelinks,
        },
    )
}

/// The rules that follow label resolution, on what the outside calls gave:
/// no taxon among the types, enough sitelinks, a popularity that was found and
/// clears the policy, and a page that was found.
pub open spec fn decision_ok(
    s: Screened,
    instance_of: Seq<String>,
    page_views: Option<usize>,
    page_found: bool,
) -> bool {
    &&& instance_of_ok(instance_of)
    &&& s.num_sitelinks is Some
    &&& s.num_sitelinks->0 >= MIN_SITELINKS
    &&& page_views is Some
    &&& page_views_ok(s.year as int, has_label(instance_of, "human"@), page_views->0 as int)
    &&& page_found
}

/// Applies the rules that follow label resolution to a screened record and
/// the results of the outside calls, and assembles the item when they hold.
pub fn decide(
    screened: Screened,
    instance_of: Vec<String>,
    occupations: Option<Vec<String>>,
    page_views: Option<usize>,
    page: Option<Wikipedia>,
) -> (r: Option<Item>)
    ensures
        r is Some <==> decision_ok(screened, instance_of@, page_views, page is Some),
        r is Some ==> {
            let item = r->0;
            &&& item.id == screened.id
            &&& item.description == screened.description
            &&& item.wikipedia_title == screened.wikipedia_title
            &&& item.date_prop_id == screened.date_prop_id
            &&& item.year == screened.year
            &&& item.instance_of == instance_of
            &&& item.occupations == occupations
            &&& Some(item.page_views) == page_views
            &&& Some(Wikipedia { label: item.label, image: item.image }) == page
        },
{
    if !ok_instance_of(&instance_of) {
        return None;
    }
    match screened.num_sitelinks {
        Some(n) => {
            if !enough_sitelinks(n) {
                return None;
            }
        },
        None => return None,
    }
    let views = match page_views {
        Some(v) => v,
        None => return None,
    };
    if !enough_page_views(screened.year, &instance_of, views) {
        return None;
    }
    match page {
        Some(p) => {
            let ghost fetched = p;
            let item = assemble(screened, instance_of, occupations, views, p);
            assert(fetched == Wikipedia { label: item.label, image: item.image });
            Some(item)
        },
        None => None,
    }
}

/// The item made of a screened record, its resolved labels, its popularity
/// and its page.
fn assemble(
    screened: Screened,
    instance_of: Vec<String>,
    occupations: Option<Vec<String>>,
    page_views: usize,
    page: Wikipedia,
) -> (r: Item)
    ensures
        r.id == screened.id,
        r.description == screened.description,
        r.wikipedia_title == screened.wikipedia_title,
        r.date_prop_id == screened.date_prop_id,
        r.year == screened.year,
        r.instance_of == instance_of,
        r.occupations == occupations,
        r.page_views == page_views,
        r.label == page.label,
        r.image == page.image,
{
    Item {
        date_prop_id: screened.date_prop_id,
        description: screened.description,
        id: screened.id,
        image: page.image,
        instance_of,
        label: page.label,
        occupations,
        page_views,
        wikipedia_title: screened.wikipedia_title,
        year: screened.year,
    }
}

/// Evaluates one record. The resolvers are called in the rules' order and only
/// while every earlier rule holds: `fetch_label` for each type, then each
/// occupation, identifier that the cache does not hold; `fetch_page_views`,
/// then `fetch_wikipedia`, with the canonical title. A record that fails a
/// rule that needs no outside call is rejected before any call.
pub fn process_item<FL, FV, FW>(
    item_json: &Json,
    date_props: &Vec<DateProperty>,
    cache: &mut LabelCache,
    fetch_label: &FL,
    fetch_page_views: &FV,
    fetch_wikipedia: &FW,
) -> (r: Option<Item>) where
    FL: Fn(&str) -> Option<String>,
    FV: Fn(&str) -> Option<usize>,
    FW: Fn(&str) -> Option<Wikipedia>,

    requires
        forall|s: &str| fetch_label.requires((s,)),
        forall|s: &str| fetch_page_views.requires((s,)),
        forall|s: &str| fetch_wikipedia.requires((s,)),
    ensures
        old(cache)@.submap_of(final(cache)@),
        !screen_ok(*item_json, prop_ids(date_props@)) ==> r is None && final(cache)@ == old(
            cache,
        )@,
        r is Some ==> accepted(r->0, *item_json, prop_ids(date_props@)),
        forall|k: Seq<char>| #[trigger] final(cache)@.contains_key(k) ==> old(cache)@.contains_key(k)
            || claimed_id(*item_json, k),
        screen_ok(*item_json, prop_ids(date_props@)) ==> exists|
            middle: Map<Seq<char>, Seq<char>>,
            types: Seq<Option<String>>,
            occupations: Seq<Option<String>>,
            page_views: Option<usize>,
            page: Option<Wikipedia>,
        |
            #[trigger] evaluation(
                *item_json,
                prop_ids(date_props@),
                old(cache)@,
                middle,
                final(cache)@,
                types,
                occupations,
                page_views,
                page,
                fetch_label,
                fetch_page_views,
                fetch_wikipedia,
                r,
            ),
        r is Some ==> exists|t: &str|
            t@ == r->0.wikipedia_title@ && #[trigger] fetch_page_views.ensures(
                (t,),
                Some(r->0.page_views),
            ),
        r is Some ==> exists|t: &str|
            t@ == r->0.wikipedia_title@ && #[trigger] fetch_wikipedia.ensures(
                (t,),
                Some(Wikipedia { label: r->0.label, image: r->0.image }),
            ),
{
    let screened = match screen(item_json, date_props) {
        Some(s) => s,
        None => return None,
    };
    let ghost v = *item_json;
    let ghost props = prop_ids(date_props@);
    let ghost before = cache@;
    let type_outcomes = cache.resolve_all(&screened.instance_of_ids, fetch_label);
    let ghost middle = cache@;
    let instance_of = labels_found(&type_outcomes);
    let ghost found_types = found(type_outcomes@);
    proof {
        lemma_has_label_view(instance_of@, "taxon"@);
        lemma_has_label_view(instance_of@, "human"@);
    }
    if !ok_instance_of(&instance_of) {
        assert(evaluation(v, props, before, middle, cache@, type_outcomes@, Seq::empty(), None, None,
            fetch_label, fetch_page_views, fetch_wikipedia, None));
        return None;
    }
    let ghost mut occupation_outcomes: Seq<Option<String>> = Seq::empty();
    let occupations = match &screened.occupation_ids {
        Some(ids) => {
            let outcomes = cache.resolve_all(ids, fetch_label);
            proof {
                occupation_outcomes = outcomes@;
            }
            Some(labels_found(&outcomes))
        },
        None => None,
    };
    assert(before.submap_of(cache@)) by {
        assert forall|k: Seq<char>| #[trigger] before.contains_key(k) implies cache@.contains_key(k)
            && before[k] == cache@[k] by {
            assert(middle.contains_key(k));
        }
    }
    assert forall|k: Seq<char>| #[trigger] cache@.contains_key(k) implies before.contains_key(k)
        || claimed_id(v, k) by {
        if !middle.contains_key(k) {
            assert(occupation_ids_of(v)->0.contains(k));
        }
    }
    let sitelinks_pass = match screened.num_sitelinks {
        Some(n) => enough_sitelinks(n),
        None => false,
    };
    if !sitelinks_pass {
        assert(evaluation(v, props, before, middle, cache@, type_outcomes@, occupation_outcomes, None, None,
            fetch_label, fetch_page_views, fetch_wikipedia, None));
        return None;
    }
    let title_text = screened.wikipedia_title.clone();
    let title = title_text.as_str();
    let fetched_views = fetch_page_views(title);
    let page_views = match fetched_views {
        Some(v) => v,
        None => {
            assert(evaluation(v, props, before, middle, cache@, type_outcomes@, occupation_outcomes, None, None,
                fetch_label, fetch_page_views, fetch_wikipedia, None));
            return None;
        },
    };
    if !enough_page_views(screened.year, &instance_of, page_views) {
        assert(evaluation(v, props, before, middle, cache@, type_outcomes@, occupation_outcomes,
            fetched_views, None, fetch_label, fetch_page_views, fetch_wikipedia, None));
        return None;
    }
    let page = fetch_wikipedia(title);
    let ghost fetched_page = page;
    let r = decide(screened, instance_of, occupations, Some(page_views), page);
    proof {
        if r is Some {
            assert(fetch_wikipedia.ensures((title,), Some(Wikipedia { label: r->0.label, image: r->0.image })));
        }
        assert(evaluation(v, props, before, middle, cache@, type_outcomes@, occupation_outcomes,
            fetched_views, fetched_page, fetch_label, fetch_page_views, fetch_wikipedia, r));
    }
    r
}

} // verus!
