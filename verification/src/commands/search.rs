//! The `search` sub-command: which fields to search, and how to show hits.
use vstd::prelude::*;
use crate::commands::list::take_n;
use crate::error::AlfredError;
use crate::item::AlfredItem;
use crate::item::ItemView;
use crate::item::ModData;
use crate::item::ModDataView;
use crate::item::ModKey;
use crate::item::alfred_error_item;
use crate::item::error_item_view;
use crate::item::new_item;
use crate::item::owned;
use crate::item::plain_item;
use crate::pins::Pin;
use crate::pins::SearchType;
use crate::text::CharSet;
use crate::text::find_sub;
use crate::text::find_sub_from;
use crate::text::lemma_find_sub_from;
use crate::text::occurs_at;
use crate::text::from_chars;
use crate::text::join;
use crate::text::join_chars;
use crate::text::to_chars;
use crate::text::trim_matches;
use crate::text::trim_ws;

verus! {

/// The fields a search looks in: none for an exact tag; else those the
/// command names; else the tags alone or every field, as the settings say.
pub open spec fn search_fields_spec(
    tags: bool,
    title: bool,
    url: bool,
    description: bool,
    exacttag: bool,
    tag_only_search: bool,
) -> Seq<SearchType> {
    if exacttag {
        seq![]
    } else {
        let named = (if tags { seq![SearchType::TagOnly] } else { seq![] }) + (if title {
            seq![SearchType::TitleOnly]
        } else {
            seq![]
        }) + (if url { seq![SearchType::UrlOnly] } else { seq![] }) + (if description {
            seq![SearchType::DescriptionOnly]
        } else {
            seq![]
        });
        if named.len() > 0 {
            named
        } else if tag_only_search {
            seq![SearchType::TagOnly]
        } else {
            seq![
                SearchType::TagOnly,
                SearchType::TitleOnly,
                SearchType::DescriptionOnly,
                SearchType::UrlOnly,
            ]
        }
    }
}

/// The fields a search looks in.
pub fn search_fields(
    tags: bool,
    title: bool,
    url: bool,
    description: bool,
    exacttag: bool,
    tag_only_search: bool,
) -> (r: Vec<SearchType>)
    ensures
        r@ == search_fields_spec(tags, title, url, description, exacttag, tag_only_search),
{
    let mut fields: Vec<SearchType> = Vec::new();
    if !exacttag {
        if tags {
            fields.push(SearchType::TagOnly);
        }
        if title {
            fields.push(SearchType::TitleOnly);
        }
        if url {
            fields.push(SearchType::UrlOnly);
        }
        if description {
            fields.push(SearchType::DescriptionOnly);
        }
        if fields.len() == 0 {
            if tag_only_search {
                fields.push(SearchType::TagOnly);
            } else {
                fields.push(SearchType::TagOnly);
                fields.push(SearchType::TitleOnly);
                fields.push(SearchType::DescriptionOnly);
                fields.push(SearchType::UrlOnly);
            }
        }
    }
    assert(fields@ =~= search_fields_spec(tags, title, url, description, exacttag, tag_only_search));
    fields
}

/// The query words joined by spaces: the search as the user typed it.
pub fn user_query(query: &Vec<String>) -> (r: String)
    ensures
        r@ == join(query@.map_values(|s: String| s@), " "@),
{
    let mut words: Vec<Vec<char>> = Vec::new();
    let mut i: usize = 0;
    while i < query.len()
        invariant
            i <= query@.len(),
            words@.map_values(|w: Vec<char>| w@) == query@.map_values(|s: String| s@).take(i as int),
        decreases query@.len() - i,
    {
        let ghost before = words@.map_values(|w: Vec<char>| w@);
        words.push(to_chars(query[i].as_str()));
        assert(words@.map_values(|w: Vec<char>| w@) == before.push(query@[i as int]@));
        assert(query@.map_values(|s: String| s@).take(i + 1) == query@.map_values(|s: String| s@).take(i as int).push(query@[i as int]@));
        i += 1;
    }
    assert(query@.map_values(|s: String| s@).take(query@.len() as int) == query@.map_values(|s: String| s@));
    let sep = to_chars(" ");
    let joined = join_chars(&words, &sep);
    from_chars(&joined)
}

/// The parts of a parsed url that the workflow reads.
#[derive(Clone, Debug)]
pub struct UrlParts {
    /// Whether the url has no hierarchical path (as `data:` urls).
    pub cannot_be_a_base: bool,
    pub scheme: String,
    pub host: Option<String>,
    /// The path split at `/`; absent for urls that cannot be a base.
    pub segments: Option<Vec<String>>,
    pub path: String,
}

/// The mathematical content of [`UrlParts`].
pub struct UrlPartsView {
    pub cannot_be_a_base: bool,
    pub scheme: Seq<char>,
    pub host: Option<Seq<char>>,
    pub segments: Option<Seq<Seq<char>>>,
    pub path: Seq<char>,
}

impl View for UrlParts {
    type V = UrlPartsView;

    open spec fn view(&self) -> UrlPartsView {
        UrlPartsView {
            cannot_be_a_base: self.cannot_be_a_base,
            scheme: self.scheme@,
            host: self.host.deep_view(),
            segments: self.segments.deep_view(),
            path: self.path@,
        }
    }
}

/// What `url::Url::parse` makes of a text, as the parts the workflow reads;
/// nothing where it refuses the text.
pub uninterp spec fn url_parse(s: Seq<char>) -> Option<UrlPartsView>;

/// Parses `s` with `url::Url::parse` and reads `cannot_be_a_base`, `scheme`,
/// `host_str`, `path_segments` and `path` of the result.
/// Claimed: the result is what the name [`url_parse`] gives for `s`.
#[verifier::external_body]
fn parse_url(s: &str) -> (r: Option<UrlParts>)
    ensures
        r is None ==> url_parse(s@) is None,
        r matches Some(p) ==> url_parse(s@) == Some(p@),
{
    let u = match url::Url::parse(s) {
        Ok(u) => u,
        Err(_) => return None,
    };
    Some(UrlParts {
        cannot_be_a_base: u.cannot_be_a_base(),
        scheme: u.scheme().to_owned(),
        host: u.host_str().map(str::to_owned),
        segments: u.path_segments().map(|p| p.map(str::to_owned).collect()),
        path: u.path().to_owned(),
    })
}

/// `s` with every `/` turned into a space.
pub open spec fn slashes_to_spaces(s: Seq<char>) -> Seq<char> {
    s.map_values(|c: char| if c == '/' { ' ' } else { c })
}

/// The words to type into pinboard.in's search to find a bookmark of the
/// url `u`: the host (after the scheme, unless it is a web url) and the path
/// segments, joined by spaces and trimmed; for urls that cannot be a base,
/// the scheme and the path with slashes made spaces.
pub open spec fn site_query_spec(u: UrlPartsView) -> Seq<char> {
    let host = match u.host {
        Some(h) => h,
        None => seq![],
    };
    if !u.cannot_be_a_base {
        let head = if find_sub_from(u.scheme, "http"@, 0) is Some {
            seq![host]
        } else {
            seq![u.scheme, host]
        };
        let segs = match u.segments {
            Some(s) => s,
            None => seq![],
        };
        trim_ws(join(head + segs, " "@))
    } else {
        trim_ws(join(seq![u.scheme, slashes_to_spaces(u.path)], " "@))
    }
}

/// `s` with every `/` turned into a space.
fn slashes_as_spaces(s: &[char]) -> (r: Vec<char>)
    ensures
        r@ == slashes_to_spaces(s@),
{
    let mut r: Vec<char> = Vec::new();
    let mut i: usize = 0;
    while i < s.len()
        invariant
            i <= s@.len(),
            r@ == slashes_to_spaces(s@.take(i as int)),
        decreases s@.len() - i,
    {
        r.push(if s[i] == '/' { ' ' } else { s[i] });
        assert(slashes_to_spaces(s@.take(i + 1)) =~= slashes_to_spaces(s@.take(i as int)).push(
            if s@[i as int] == '/' { ' ' } else { s@[i as int] },
        ));
        i += 1;
    }
    assert(s@.take(s@.len() as int) == s@);
    r
}

/// The words to type into pinboard.in's search to find a bookmark of the url `u`.
pub fn site_query(u: &UrlParts) -> (r: String)
    ensures
        r@ == site_query_spec(u@),
{
    let host: Vec<char> = match &u.host {
        Some(h) => to_chars(h.as_str()),
        None => Vec::new(),
    };
    let scheme = to_chars(u.scheme.as_str());
    let mut parts: Vec<Vec<char>> = Vec::new();
    let ghost hv = match u@.host {
        Some(h) => h,
        None => Seq::<char>::empty(),
    };
    assert(host@ == hv);
    if !u.cannot_be_a_base {
        let http = to_chars("http");
        if find_sub(&scheme, &http, 0).is_some() {
            parts.push(host);
        } else {
            parts.push(scheme);
            parts.push(host);
        }
        let ghost head = parts@.map_values(|w: Vec<char>| w@);
        match &u.segments {
            Some(segs) => {
                let mut i: usize = 0;
                while i < segs.len()
                    invariant
                        i <= segs@.len(),
                        parts@.map_values(|w: Vec<char>| w@) == head + segs@.map_values(|s: String| s@).take(i as int),
                    decreases segs@.len() - i,
                {
                    let ghost before = parts@.map_values(|w: Vec<char>| w@);
                    parts.push(to_chars(segs[i].as_str()));
                    assert(parts@.map_values(|w: Vec<char>| w@) == before.push(segs@[i as int]@));
                    assert(segs@.map_values(|s: String| s@).take(i + 1) == segs@.map_values(|s: String| s@).take(i as int).push(segs@[i as int]@));
                    i += 1;
                }
                assert(segs@.map_values(|s: String| s@).take(segs@.len() as int) == segs@.map_values(|s: String| s@));
                assert(segs.deep_view() =~= segs@.map_values(|s: String| s@));
            },
            None => {
                assert(head + Seq::<Seq<char>>::empty() == head);
            },
        }
        let ghost segs_v = match u@.segments {
            Some(s) => s,
            None => Seq::<Seq<char>>::empty(),
        };
        let ghost head_v = if find_sub_from(u@.scheme, "http"@, 0) is Some {
            seq![hv]
        } else {
            seq![u@.scheme, hv]
        };
        assert(head =~= head_v);
        assert(parts@.map_values(|w: Vec<char>| w@) =~= head_v + segs_v);
    } else {
        let path = to_chars(u.path.as_str());
        parts.push(scheme);
        parts.push(slashes_as_spaces(&path));
        assert(parts@.map_values(|w: Vec<char>| w@) =~= seq![u@.scheme, slashes_to_spaces(u@.path)]);
    }
    let sep = to_chars(" ");
    let joined = join_chars(&parts, &sep);
    let trimmed = trim_matches(&joined, CharSet::Whitespace);
    from_chars(&trimmed)
}

/// The hint shown while the option key is held over a hit.
pub open spec fn find_on_site_hint() -> Seq<char> {
    "Find bookmark in https://pinboard.in"@
}

/// The entry for the bookmark `p`, whose url parses to `u`: the title, then
/// its tags or its url (as `url_vs_tags` says) and the other one while the
/// command key is held; control shows the note, option offers to look the
/// bookmark up on pinboard.in.
pub open spec fn pin_item_view(p: Pin, u: UrlPartsView, url_vs_tags: bool) -> ItemView {
    let (sub, mod_sub) = if url_vs_tags {
        (p.tags@, p.url@)
    } else {
        (p.url@, p.tags@)
    };
    ItemView {
        subtitle: Some(sub),
        arg: Some(p.url@),
        variables: seq![("tags"@, p.tags@)],
        quicklook_url: Some(p.url@),
        text_large_type: Some(p.title@),
        text_copy: Some(p.url@),
        icon_path: Some("bookmarks.png"@),
        modifiers: seq![
            ModDataView { key: ModKey::Cmd, subtitle: Some(mod_sub), arg: None, valid: None },
            ModDataView { key: ModKey::Ctrl, subtitle: p.extended.deep_view(), arg: Some(p.url@), valid: Some(true) },
            ModDataView { key: ModKey::Alt, subtitle: Some(find_on_site_hint()), arg: Some(site_query_spec(u)), valid: Some(true) },
        ],
        ..plain_item(p.title@)
    }
}

/// The entry for the bookmark `p`, whose url parses to `u`.
pub fn pin_item(p: &Pin, u: &UrlParts, url_vs_tags: bool) -> (r: AlfredItem)
    ensures
        r@ == pin_item_view(*p, u@, url_vs_tags),
{
    let (sub, mod_sub) = if url_vs_tags {
        (p.tags.clone(), p.url.clone())
    } else {
        (p.url.clone(), p.tags.clone())
    };
    let mut r = new_item(p.title.clone());
    r.subtitle = Some(sub);
    r.arg = Some(p.url.clone());
    let mut vars: Vec<(String, String)> = Vec::new();
    vars.push((owned("tags"), p.tags.clone()));
    r.variables = vars;
    r.quicklook_url = Some(p.url.clone());
    r.text_large_type = Some(p.title.clone());
    r.text_copy = Some(p.url.clone());
    r.icon_path = Some(owned("bookmarks.png"));
    let mut mods: Vec<ModData> = Vec::new();
    mods.push(ModData { key: ModKey::Cmd, subtitle: Some(mod_sub), arg: None, valid: None });
    mods.push(ModData { key: ModKey::Ctrl, subtitle: p.extended.clone(), arg: Some(p.url.clone()), valid: Some(true) });
    mods.push(ModData {
        key: ModKey::Alt,
        subtitle: Some(owned("Find bookmark in https://pinboard.in")),
        arg: Some(site_query(u)),
        valid: Some(true),
    });
    r.modifiers = mods;
    assert(r.variables.deep_view() =~= seq![("tags"@, p.tags@)]);
    assert(r.modifiers@.map_values(|m: ModData| m@) =~= pin_item_view(*p, u@, url_vs_tags).modifiers);
    r
}

/// The entry shown when a search finds nothing.
pub open spec fn no_result_view() -> ItemView {
    ItemView { icon_path: Some("no_result.png"@), ..plain_item("No bookmarks found!"@) }
}

/// Whether the url of every bookmark in `pins` parses.
pub open spec fn all_urls_parse(pins: Seq<Pin>) -> bool {
    forall|i: int| 0 <= i < pins.len() ==> (#[trigger] url_parse(pins[i].url@)) is Some
}

/// The entries for the bookmarks `pins`, whose urls all parse.
pub open spec fn hit_items(pins: Seq<Pin>, url_vs_tags: bool) -> Seq<ItemView> {
    pins.map_values(|p: Pin| pin_item_view(p, url_parse(p.url@)->0, url_vs_tags))
}

/// The tag to look up by its exact name, where the search asks for one with
/// `exacttag`: the first word of `query`. `None` where the fields are searched
/// for all the words instead.
pub fn exact_tag(exacttag: bool, query: &Vec<String>) -> (r: Option<String>)
    requires
        query@.len() > 0,
    ensures
        exacttag ==> (r matches Some(t) && t@ == query@[0]@),
        !exacttag ==> r is None,
{
    if exacttag {
        Some(query[0].clone())
    } else {
        None
    }
}

/// The entries for what a search found: an error entry, the
/// "nothing found" entry, or one entry for each of the first `pins_to_show`
/// bookmarks. Nothing where the url of one of those bookmarks does not parse.
pub fn search_items(
    found: Result<Option<Vec<Pin>>, String>,
    pins_to_show: u8,
    url_vs_tags: bool,
) -> (r: Option<Vec<AlfredItem>>)
    ensures
        found matches Err(e) ==> r matches Some(v) && v@.map_values(|i: AlfredItem| i@) == seq![error_item_view(e@)],
        found matches Ok(None) ==> r matches Some(v) && v@.map_values(|i: AlfredItem| i@) == seq![no_result_view()],
        found matches Ok(Some(pins)) ==> {
            let shown = take_n(pins@, pins_to_show as nat);
            &&& (r is None <==> !all_urls_parse(shown))
            &&& (r matches Some(v) ==> v@.map_values(|i: AlfredItem| i@) == hit_items(shown, url_vs_tags))
        },
{
    let ghost f0 = found;
    match found {
        Err(e) => {
            let mut v: Vec<AlfredItem> = Vec::new();
            v.push(alfred_error_item(e));
            assert(v@.map_values(|i: AlfredItem| i@) =~= seq![v@[0]@]);
            Some(v)
        },
        Ok(None) => {
            let mut it = new_item(owned("No bookmarks found!"));
            it.icon_path = Some(owned("no_result.png"));
            let mut v: Vec<AlfredItem> = Vec::new();
            v.push(it);
            assert(v@.map_values(|i: AlfredItem| i@) =~= seq![v@[0]@]);
            Some(v)
        },
        Ok(Some(pins)) => {
            let n: usize = pins_to_show as usize;
            let ghost shown = take_n(pins@, pins_to_show as nat);
            let mut v: Vec<AlfredItem> = Vec::new();
            let mut i: usize = 0;
            while i < pins.len() && i < n
                invariant
                    i <= pins@.len(),
                    i <= n,
                    n == pins_to_show,
                    f0 == Ok::<Option<Vec<Pin>>, String>(Some(pins)),
                    f0 == found,
                    shown == take_n(pins@, pins_to_show as nat),
                    all_urls_parse(pins@.take(i as int)),
                    v@.map_values(|it: AlfredItem| it@) == hit_items(pins@.take(i as int), url_vs_tags),
                decreases pins@.len() - i,
            {
                let p = &pins[i];
                let u = match parse_url(p.url.as_str()) {
                    Some(u) => u,
                    None => {
                        assert(shown[i as int] == pins@[i as int]);
                        assert(!all_urls_parse(shown));
                        return None;
                    },
                };
                let ghost before = v@.map_values(|it: AlfredItem| it@);
                v.push(pin_item(p, &u, url_vs_tags));
                assert(pins@.take(i + 1) == pins@.take(i as int).push(pins@[i as int]));
                assert(v@.map_values(|it: AlfredItem| it@) == before.push(pin_item_view(pins@[i as int], u@, url_vs_tags)));
                assert(hit_items(pins@.take(i + 1), url_vs_tags) == hit_items(pins@.take(i as int), url_vs_tags).push(
                    pin_item_view(pins@[i as int], u@, url_vs_tags),
                ));
                assert(all_urls_parse(pins@.take(i + 1))) by {
                    assert forall|k: int| 0 <= k < i + 1 implies (#[trigger] url_parse(pins@.take(i + 1)[k].url@)) is Some by {
                        if k < i {
                            assert(pins@.take(i + 1)[k] == pins@.take(i as int)[k]);
                        }
                    }
                }
                i += 1;
            }
            assert(shown == pins@.take(i as int));
            Some(v)
        },
    }
}

/// The quick-look urls of `items`, one per line (`--showonlyurl`).
pub open spec fn url_lines(items: Seq<ItemView>) -> Seq<char>
    decreases items.len(),
{
    if items.len() == 0 {
        seq![]
    } else {
        url_lines(items.drop_last()) + match items.last().quicklook_url {
            Some(u) => u,
            None => seq![],
        } + "\n"@
    }
}

/// The quick-look urls of `items`, one per line.
pub fn only_urls(items: &Vec<AlfredItem>) -> (r: String)
    ensures
        r@ == url_lines(items@.map_values(|i: AlfredItem| i@)),
{
    let ghost iv = items@.map_values(|i: AlfredItem| i@);
    let mut out: Vec<char> = Vec::new();
    let newline = to_chars("\n");
    let mut i: usize = 0;
    while i < items.len()
        invariant
            i <= items@.len(),
            iv == items@.map_values(|i: AlfredItem| i@),
            newline@ == "\n"@,
            out@ == url_lines(iv.take(i as int)),
        decreases items@.len() - i,
    {
        assert(iv.take(i + 1).drop_last() == iv.take(i as int));
        match &items[i].quicklook_url {
            Some(u) => {
                let uc = to_chars(u.as_str());
                crate::text::append_chars(&mut out, &uc);
            },
            None => {},
        }
        crate::text::append_chars(&mut out, &newline);
        i += 1;
    }
    assert(iv.take(items@.len() as int) == iv);
    from_chars(&out)
}

/// A search shows at most `pins_to_show` bookmarks, each at most once and in
/// the order found; what the entry shows below the title is the bookmark's
/// tags or its url as the setting says, and the other one while command is held.
pub proof fn lemma_hits(pins: Seq<Pin>, pins_to_show: u8, url_vs_tags: bool)
    ensures
        hit_items(take_n(pins, pins_to_show as nat), url_vs_tags).len() <= pins_to_show,
        forall|i: int|
            0 <= i < hit_items(take_n(pins, pins_to_show as nat), url_vs_tags).len() ==> {
                let it = #[trigger] hit_items(take_n(pins, pins_to_show as nat), url_vs_tags)[i];
                &&& it.title == pins[i].title@
                &&& it.arg == Some(pins[i].url@)
                &&& it.subtitle == Some(if url_vs_tags { pins[i].tags@ } else { pins[i].url@ })
                &&& it.modifiers[0].subtitle == Some(if url_vs_tags { pins[i].url@ } else { pins[i].tags@ })
            },
{
}

/// A pattern that occurs at `j` (at or after `i`) is found from `i`.
proof fn lemma_occurrence_found(s: Seq<char>, sep: Seq<char>, i: int, j: int)
    requires
        0 <= i <= j,
        occurs_at(s, sep, j),
    ensures
        find_sub_from(s, sep, i) is Some,
    decreases j - i,
{
    if !occurs_at(s, sep, i) {
        lemma_occurrence_found(s, sep, i + 1, j);
    }
}

/// A web url, one whose scheme holds `http` (as `http` and `https` do), is
/// looked up on the site by its host and path segments alone, with no scheme
/// word; any other url that can be a base starts with its scheme.
pub proof fn lemma_web_url_query(u: UrlPartsView, h: Seq<char>, segs: Seq<Seq<char>>)
    requires
        !u.cannot_be_a_base,
        u.host == Some(h),
        u.segments == Some(segs),
    ensures
        (exists|j: int| occurs_at(u.scheme, "http"@, j)) ==> site_query_spec(u) == trim_ws(
            join(seq![h] + segs, " "@),
        ),
        (forall|j: int| !occurs_at(u.scheme, "http"@, j)) ==> site_query_spec(u) == trim_ws(
            join(seq![u.scheme, h] + segs, " "@),
        ),
{
    if exists|j: int| occurs_at(u.scheme, "http"@, j) {
        let j = choose|j: int| occurs_at(u.scheme, "http"@, j);
        lemma_occurrence_found(u.scheme, "http"@, 0, j);
    } else {
        if find_sub_from(u.scheme, "http"@, 0) is Some {
            lemma_find_sub_from(u.scheme, "http"@, 0);
        }
    }
}

} // verus!
