//! The command line: one global option set and the sub-commands.
use vstd::prelude::*;

verus! {

/// Command line component of the Alfred workflow for Pinboard.
#[derive(Clone, Debug)]
pub struct Opt {
    /// Verbosity of the debug log.
    pub debug_level: i8,
    /// Always offer an item made of exactly what the user typed.
    pub query_as_item: bool,
    /// What to do.
    pub cmd: SubCommand,
}

/// The sub-commands of the workflow.
#[derive(Clone, Debug)]
pub enum SubCommand {
    /// Configures options and settings of interacting with API and searching items.
    Config {
        display: bool,
        auth_token: Option<String>,
        number_pins: Option<u8>,
        number_tags: Option<u8>,
        shared: Option<bool>,
        toread: Option<bool>,
        fuzzy: Option<bool>,
        tags_only: Option<bool>,
        auto_update: Option<bool>,
        suggest_tags: Option<bool>,
        check_bookmarked_page: Option<bool>,
        show_url_vs_tags: Option<bool>,
    },
    /// Lists all bookmarks (default) or tags.
    List { tags: bool, suggest: Option<bool>, no_existing_page: bool, query: Option<String> },
    /// Creates a bookmark for the current page of the active browser.
    Post {
        tags: Vec<String>,
        description: Option<String>,
        shared: Option<bool>,
        toread: Option<bool>,
    },
    /// Deletes a bookmark (the given url, or the active browser's page) or a tag.
    Delete { url: Option<String>, tag: Option<String> },
    /// Renames a tag: the first tag becomes the second.
    Rename { tags: Vec<String> },
    /// Searches bookmarks.
    Search {
        tags: bool,
        title: bool,
        description: bool,
        url: bool,
        showonlyurl: bool,
        exacttag: bool,
        query: Vec<String>,
    },
    /// Updates the local cache by a full download from Pinboard.
    Update,
    /// Checks for or downloads the latest version of the workflow.
    SelfUpdate { check: bool, download: bool },
}

} // verus!
