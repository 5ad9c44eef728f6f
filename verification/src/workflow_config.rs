//! The workflow's settings and the Alfred version it runs under.
use vstd::prelude::*;
use crate::text::find;
use crate::text::find_char;
use crate::text::parse_u64;
use crate::text::parse_u64_spec;
use crate::text::sub_chars;
use crate::text::to_chars;

verus! {

/// File name of the settings file.
pub const CONFIG_FILE_NAME: &'static str = "settings.json";

/// Key under which the settings are stored in that file.
pub const CONFIG_KEY_NAME: &'static str = "settings";

/// A semantic version, held as plain values.
#[derive(Clone, Debug)]
pub struct AlfredVersion {
    pub major: u64,
    pub minor: u64,
    pub patch: u64,
    /// Pre-release identifiers, empty for a release.
    pub pre: String,
    /// Build metadata, empty when absent.
    pub build: String,
}

/// The version `major.0.0`, without pre-release or build data (`semver::Version::new`).
pub open spec fn is_release(v: AlfredVersion, major: u64) -> bool {
    v.major == major && v.minor == 0 && v.patch == 0 && v.pre@.len() == 0 && v.build@.len() == 0
}

/// The version `major.0.0`.
pub fn release(major: u64) -> (v: AlfredVersion)
    ensures
        is_release(v, major),
{
    AlfredVersion { major, minor: 0, patch: 0, pre: String::new(), build: String::new() }
}

/// What `semver::Version::parse` yields for a text: major, minor, patch,
/// pre-release and build text, or nothing where it refuses the text.
pub uninterp spec fn semver_parse(s: Seq<char>) -> Option<(u64, u64, u64, Seq<char>, Seq<char>)>;

/// The fields of `v` in the shape that [`semver_parse`] yields.
pub open spec fn version_fields(v: AlfredVersion) -> (u64, u64, u64, Seq<char>, Seq<char>) {
    (v.major, v.minor, v.patch, v.pre@, v.build@)
}

/// Parses `s` as a semantic version with `semver::Version::parse`.
/// Claimed: the result is what the name [`semver_parse`] gives for `s`.
#[verifier::external_body]
fn parse_version(s: &str) -> (r: Option<AlfredVersion>)
    ensures
        r is None ==> semver_parse(s@) is None,
        r matches Some(v) ==> semver_parse(s@) == Some(version_fields(v)),
{
    match semver::Version::parse(s) {
        Ok(v) => Some(
            AlfredVersion {
                major: v.major,
                minor: v.minor,
                patch: v.patch,
                pre: v.pre.as_str().to_owned(),
                build: v.build.as_str().to_owned(),
            },
        ),
        Err(_) => None,
    }
}

/// Whether `semver::VersionReq::parse(req)` accepts the version
/// `major.minor.patch-pre` (build metadata plays no part in matching);
/// nothing where the requirement or the pre-release text is refused.
pub uninterp spec fn semver_req_matches(
    req: Seq<char>,
    major: u64,
    minor: u64,
    patch: u64,
    pre: Seq<char>,
) -> Option<bool>;

/// Matches a version against a requirement with `semver::VersionReq::matches`.
/// Claimed: the result is the name [`semver_req_matches`]; and, as the crate's
/// source shows for the requirement `>= 3` (a comparator with no minor and no
/// patch part), a release matches exactly when its major part is at least 3,
/// while a pre-release never matches.
#[verifier::external_body]
fn req_matches(req: &str, major: u64, minor: u64, patch: u64, pre: &str) -> (r: Option<bool>)
    ensures
        r == semver_req_matches(req@, major, minor, patch, pre@),
        req@ == ">= 3"@ && pre@.len() == 0 ==> r == Some(major >= 3),
        req@ == ">= 3"@ && pre@.len() > 0 ==> r != Some(true),
{
    let req = match semver::VersionReq::parse(req) {
        Ok(q) => q,
        Err(_) => return None,
    };
    let pre = match semver::Prerelease::new(pre) {
        Ok(p) => p,
        Err(_) => return None,
    };
    Some(req.matches(&semver::Version { major, minor, patch, pre, build: semver::BuildMetadata::EMPTY }))
}

/// The version that the text `s` of Alfred's version variable stands for:
/// the semantic version it spells; else `n.0.0`, where `n` is the number
/// before the first dot (2 where that is no number); else `2.0.0`.
pub open spec fn alfred_version_of(s: Seq<char>) -> (u64, u64, u64, Seq<char>, Seq<char>) {
    match semver_parse(s) {
        Some(v) => v,
        None => match find_char(s, '.') {
            None => (2, 0, 0, seq![], seq![]),
            Some(idx) => match parse_u64_spec(s.take(idx)) {
                Some(m) => (m, 0, 0, seq![], seq![]),
                None => (2, 0, 0, seq![], seq![]),
            },
        },
    }
}

/// The Alfred version from the text of Alfred's version variable, `2.0.0`
/// where the variable is not set.
pub fn get_alfred_version(env: Option<String>) -> (v: AlfredVersion)
    ensures
        env is None ==> is_release(v, 2),
        env matches Some(s) ==> version_fields(v) == alfred_version_of(s@),
{
    let min_version: u64 = 2;
    match env {
        None => release(min_version),
        Some(s) => match parse_version(s.as_str()) {
            Some(v) => v,
            None => {
                let cs = to_chars(s.as_str());
                match find(&cs, '.') {
                    None => {
                        let v = release(min_version);
                        assert(v.pre@ == Seq::<char>::empty() && v.build@ == Seq::<char>::empty());
                        v
                    },
                    Some(idx) => {
                        let head = sub_chars(&cs, 0, idx);
                        assert(head@ == s@.take(idx as int));
                        let m = match parse_u64(&head) {
                            Some(m) => m,
                            None => min_version,
                        };
                        let v = release(m);
                        assert(v.pre@ == Seq::<char>::empty() && v.build@ == Seq::<char>::empty());
                        v
                    },
                }
            },
        },
    }
}

/// A moment in UTC: seconds since the UNIX epoch and the nanoseconds past them.
#[derive(Clone, Copy, Debug)]
pub struct Timestamp {
    pub secs: i64,
    pub nanos: u32,
}

/// What parsing a text as a `chrono::DateTime<Utc>` yields: seconds since
/// the UNIX epoch and the nanoseconds past them; nothing where it is refused.
pub uninterp spec fn utc_parse(s: Seq<char>) -> Option<(i64, u32)>;

/// Parses `s` with `str::parse::<chrono::DateTime<chrono::Utc>>` and reads
/// `timestamp` and `timestamp_subsec_nanos` of the result.
/// Claimed: the result is the name [`utc_parse`]; and, as chrono documents
/// the RFC 3339 form it reads, `1970-01-01T23:00:00Z` is 23 hours past the epoch.
#[verifier::external_body]
fn parse_utc(s: &str) -> (r: Option<Timestamp>)
    ensures
        r is None ==> utc_parse(s@) is None,
        r matches Some(t) ==> utc_parse(s@) == Some((t.secs, t.nanos)),
        s@ == "1970-01-01T23:00:00Z"@ ==> (r is Some && r->0.secs == 23 * 3600 && r->0.nanos == 0),
{
    match s.parse::<chrono::DateTime<chrono::Utc>>() {
        Ok(t) => Some(Timestamp { secs: t.timestamp(), nanos: t.timestamp_subsec_nanos() }),
        Err(_) => None,
    }
}

/// `1970-01-01T23:00:00Z`: the cache time of a workflow that never updated
/// its cache.
pub fn get_epoch() -> (t: Timestamp)
    ensures
        t.secs == 23 * 3600 && t.nanos == 0,
{
    parse_utc("1970-01-01T23:00:00Z").unwrap()
}

/// The workflow's settings. They have no `Debug`, so that the token is not
/// printed with them.
#[derive(Clone)]
pub struct Config {
    /// Which version of Alfred we are being executed under
    pub alfred_version: AlfredVersion,
    /// Number of bookmarks to show in Alfred
    pub pins_to_show: u8,
    /// Number of tags to show in Alfred
    pub tags_to_show: u8,
    /// Flag to perform search only on `tag` fields of bookmarks
    pub tag_only_search: bool,
    /// Flag to perform a fuzzy search
    pub fuzzy_search: bool,
    /// Flag to save bookmarks as private
    pub private_new_pin: bool,
    /// Flag to save bookmarks as toread
    pub toread_new_pin: bool,
    /// Flag to suggest popular tags for the browser's current url
    pub suggest_tags: bool,
    /// Flag to check if browser's page is already bookmarked
    pub page_is_bookmarked: bool,
    /// Flag to show either url or tags of current bookmark
    pub show_url_vs_tags: bool,
    /// Flag to update cache after each bookmark saving automatically.
    pub auto_update_cache: bool,
    /// Authentication Token
    pub auth_token: String,
    /// Last time cache was updated
    pub update_time: Timestamp,
    /// Folder to store data of the workflow
    pub workflow_data_dir: String,
    /// Folder to store volatile data of the workflow
    pub workflow_cache_dir: String,
}

impl Config {
    /// Folder that holds the workflow's data.
    pub open spec fn spec_data_dir(&self) -> Seq<char> {
        self.workflow_data_dir@
    }

    /// Folder that holds the workflow's volatile data.
    pub open spec fn spec_cache_dir(&self) -> Seq<char> {
        self.workflow_cache_dir@
    }

    /// Whether `self` holds the default settings, for the given Alfred
    /// version and folders.
    pub open spec fn is_default(&self, v: AlfredVersion, data_dir: Seq<char>, cache_dir: Seq<char>) -> bool {
        &&& self.alfred_version == v
        &&& self.pins_to_show == 10
        &&& self.tags_to_show == 10
        &&& !self.tag_only_search
        &&& !self.fuzzy_search
        &&& self.private_new_pin
        &&& !self.toread_new_pin
        &&& self.suggest_tags
        &&& self.page_is_bookmarked
        &&& self.auto_update_cache
        &&& self.show_url_vs_tags
        &&& self.auth_token@.len() == 0
        &&& self.update_time.secs == 23 * 3600
        &&& self.update_time.nanos == 0
        &&& self.workflow_data_dir@ == data_dir
        &&& self.workflow_cache_dir@ == cache_dir
    }

    /// The default settings, for the given Alfred version and folders.
    pub fn new(alfred_version: AlfredVersion, data_dir: String, cache_dir: String) -> (c: Config)
        ensures
            c.is_default(alfred_version, data_dir@, cache_dir@),
    {
        Config {
            alfred_version,
            pins_to_show: 10,
            tags_to_show: 10,
            tag_only_search: false,
            fuzzy_search: false,
            private_new_pin: true,
            toread_new_pin: false,
            suggest_tags: true,
            page_is_bookmarked: true,
            auto_update_cache: true,
            show_url_vs_tags: true,
            auth_token: String::new(),
            update_time: get_epoch(),
            workflow_data_dir: data_dir,
            workflow_cache_dir: cache_dir,
        }
    }

    /// Records the workflow's data and cache folders.
    pub fn discover_dirs(&mut self, dirs: (String, String))
        ensures
            final(self).spec_data_dir() == dirs.0@,
            final(self).spec_cache_dir() == dirs.1@,
            final(self).alfred_version == old(self).alfred_version,
            final(self).pins_to_show == old(self).pins_to_show,
            final(self).tags_to_show == old(self).tags_to_show,
            final(self).tag_only_search == old(self).tag_only_search,
            final(self).fuzzy_search == old(self).fuzzy_search,
            final(self).private_new_pin == old(self).private_new_pin,
            final(self).toread_new_pin == old(self).toread_new_pin,
            final(self).suggest_tags == old(self).suggest_tags,
            final(self).page_is_bookmarked == old(self).page_is_bookmarked,
            final(self).show_url_vs_tags == old(self).show_url_vs_tags,
            final(self).auto_update_cache == old(self).auto_update_cache,
            final(self).auth_token == old(self).auth_token,
            final(self).update_time == old(self).update_time,
    {
        self.workflow_data_dir = dirs.0;
        self.workflow_cache_dir = dirs.1;
    }

    /// Folder that holds the workflow's volatile data.
    pub fn cache_dir(&self) -> (r: &String)
        ensures
            r@ == self.spec_cache_dir(),
    {
        &self.workflow_cache_dir
    }

    /// Folder that holds the workflow's data.
    pub fn data_dir(&self) -> (r: &String)
        ensures
            r@ == self.spec_data_dir(),
    {
        &self.workflow_data_dir
    }

    /// Whether Alfred reads and writes items as JSON: version 3 and above,
    /// early-access builds (with a pre-release part) included.
    pub fn can_use_json(&self) -> (r: bool)
        ensures
            r == (self.alfred_version.major >= 3),
    {
        let v = &self.alfred_version;
        proof {
            reveal_strlit("");
        }
        match req_matches(">= 3", v.major, v.minor, v.patch, "") {
            Some(b) => b,
            None => false,
        }
    }
}

} // verus!
