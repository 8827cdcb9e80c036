//! What the page-view statistics service answers, and how an answer is read.

use vstd::prelude::*;

verus! {

/// One bucket of page-view statistics.
pub struct Items {
    pub access: String,
    pub agent: String,
    pub article: String,
    pub granularity: String,
    pub project: String,
    pub timestamp: String,
    pub views: usize,
}

/// The view count of the first bucket; none when no bucket came back.
pub fn views_of_first(items: &Vec<Items>) -> (r: Option<usize>)
    ensures
        r == if items.len() == 0 {
            None
        } else {
            Some(items@[0].views)
        },
{
    if items.len() == 0 {
        None
    } else {
        Some(items[0].views)
    }
}

} // verus!
