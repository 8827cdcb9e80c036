//! What the encyclopedia's page-info service answers, and how an answer is
//! read.

use vstd::prelude::*;

verus! {

/// The canonical title of a page and its representative image.
pub struct Wikipedia {
    pub label: String,
    pub image: String,
}

/// The first page of an answer; none when no page came back.
pub fn first_page(pages: Vec<Wikipedia>) -> (r: Option<Wikipedia>)
    ensures
        r == if pages.len() == 0 {
            None
        } else {
            Some(pages@[0])
        },
{
    let mut pages = pages;
    if pages.len() == 0 {
        None
    } else {
        Some(pages.remove(0))
    }
}

} // verus!
