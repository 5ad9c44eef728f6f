//! The workflow's own error kinds.
use vstd::prelude::*;
use crate::text::append_chars;
use crate::text::to_chars;
use crate::text::from_chars;

verus! {

/// Failures that the workflow reports to the user.
#[derive(Clone, Debug)]
pub enum AlfredError {
    /// The settings file exists but cannot be read as settings.
    ConfigFileErr,
    /// There is no settings file yet.
    MissingConfigFile,
    /// Refreshing the local cache failed; the text says at which step.
    CacheUpdateFailed(String),
    /// Posting a bookmark failed; the text says why.
    Post2PinboardFailed(String),
    /// Deleting a bookmark or a tag failed; the text says which.
    DeleteFailed(String),
    /// Anything else.
    Other,
}

/// The message shown for `e`.
pub open spec fn error_message(e: AlfredError) -> Seq<char> {
    match e {
        AlfredError::ConfigFileErr => "Config file may be corrupted"@,
        AlfredError::MissingConfigFile => "Missing config file (did you set API token?)"@,
        AlfredError::CacheUpdateFailed(s) => "Cache update failed: "@ + s@,
        AlfredError::Post2PinboardFailed(s) => "Posting to Pinboard failed: "@ + s@,
        AlfredError::DeleteFailed(s) => "Deleting from Pinboard failed: "@ + s@,
        AlfredError::Other => "What did you do?"@,
    }
}

fn prefixed(prefix: &str, detail: &String) -> (r: String)
    ensures
        r@ == prefix@ + detail@,
{
    let mut v = to_chars(prefix);
    let d = to_chars(detail.as_str());
    append_chars(&mut v, &d);
    from_chars(&v)
}

impl AlfredError {
    /// The message shown for this error (its `Display` text).
    pub fn message(&self) -> (r: String)
        ensures
            r@ == error_message(*self),
    {
        match self {
            AlfredError::ConfigFileErr => "Config file may be corrupted".to_owned(),
            AlfredError::MissingConfigFile => "Missing config file (did you set API token?)".to_owned(),
            AlfredError::CacheUpdateFailed(s) => prefixed("Cache update failed: ", s),
            AlfredError::Post2PinboardFailed(s) => prefixed("Posting to Pinboard failed: ", s),
            AlfredError::DeleteFailed(s) => prefixed("Deleting from Pinboard failed: ", s),
            AlfredError::Other => "What did you do?".to_owned(),
        }
    }
}

} // verus!
