//! The accepted record, as it is handed back for output.

use vstd::prelude::*;

verus! {

/// A record that passed every rule, with every field resolved.
pub struct Item {
    pub date_prop_id: String,
    pub description: String,
    pub id: String,
    pub image: String,
    pub instance_of: Vec<String>,
    pub label: String,
    pub occupations: Option<Vec<String>>,
    pub page_views: usize,
    pub wikipedia_title: String,
    pub year: i64,
}

} // verus!
