//! The content records a selection service hands the pipeline, and the
//! selector that will one day pick one per platform and date.

use vstd::prelude::*;
use std::collections::HashSet;

verus! {

/// One schedulable piece of content, keyed by platform and date upstream.
#[derive(Debug, Clone)]
pub struct ContentItem {
    pub id: String,
    pub platform: String,
    pub schedule_type: String,
    pub template: String,
    pub title: String,
    pub background_color: String,
    pub text_color: String,
    pub audio_file: Option<String>,
    pub tags: String,
}

/// Holds the content catalogue and remembers what was recently posted.
pub struct ContentSelector {
    /// Every content item the selector may choose from.
    pub content_items: Vec<ContentItem>,
    /// Ids of recently posted content, so nothing repeats too soon.
    pub posted_history: HashSet<String>,
}

impl ContentSelector {
    /// A selector over the given catalogue, with an empty posting history.
    pub fn new(content_items: Vec<ContentItem>) -> (s: ContentSelector)
        ensures
            s.content_items@ == content_items@,
            s.posted_history@ == Set::<String>::empty(),
    {
        ContentSelector { content_items, posted_history: HashSet::new() }
    }
}

} // verus!
