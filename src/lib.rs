//! Selection of encyclopedic records from a knowledge-base dump: field
//! extraction over a JSON model, qualification rules, a label cache and the
//! evaluation pipeline that ties them together.

pub mod extract;
pub mod item;
pub mod json;
pub mod label_cache;
pub mod page_views;
pub mod process;
pub mod request;
pub mod rules;
pub mod text;
pub mod wikipedia;
