use vstd::prelude::*;

pub mod declarations;
pub mod ingest;
pub mod json;
pub mod paths;
pub mod review;
pub mod text;
pub mod tools;

verus! {

/// Announcement that an article was fetched from a news group.
#[derive(Debug)]
pub enum Event {
    ArticleFetched { group: String, article_id: String, content: Vec<String> },
}

} // verus!
