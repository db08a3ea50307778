use crate::markup::Markers;
use vstd::prelude::*;
use vstd::string::StringExecFns;

verus! {

/// What one crawler is set up with: the site, what it searches for, how it
/// names itself to the site, and how listings are found in a page.
#[derive(Debug, Clone, PartialEq, Eq)]
pub struct CrawlConfig {
    /// The site's base address, without a trailing slash.
    pub site: String,
    /// The search term, encoded for a query.
    pub term: String,
    /// The identity sent with every request.
    pub user_agent: String,
    /// How listings are found in a page.
    pub markers: Markers,
}

impl CrawlConfig {
    /// A crawler for the search-result pages of `site`.
    pub fn new(site: &str, term: &str, user_agent: &str) -> (config: CrawlConfig)
        ensures
            config.site@ == site@,
            config.term@ == term@,
            config.user_agent@ == user_agent@,
            config.markers@ == Markers::search_results_view(),
    {
        CrawlConfig {
            site: String::from_str(site),
            term: String::from_str(term),
            user_agent: String::from_str(user_agent),
            markers: Markers::search_results(),
        }
    }
}

} // verus!
