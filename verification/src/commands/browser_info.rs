//! Reading the active browser tab from the output of the browser script.
use vstd::prelude::*;
use crate::text::CharSet;
use crate::text::from_chars;
use crate::text::split_on;
use crate::text::split_str;
use crate::text::to_chars;
use crate::text::trim_matches;
use crate::text::trim_set;
use crate::text::trim_ws;

verus! {

/// The url and the title of the active browser tab.
#[derive(Clone, Debug)]
pub struct BrowserActiveTabInfo {
    pub url: String,
    pub title: String,
}

/// Why the browser script's output names no tab.
#[derive(Clone, Copy, PartialEq, Eq, Debug)]
pub enum BrowserInfoError {
    /// The url field is empty.
    NoUrl,
}

impl BrowserInfoError {
    /// The message shown for this error.
    pub fn message(&self) -> (r: String)
        ensures
            r@ == "Cannot get browser's URL"@,
    {
        "Cannot get browser's URL".to_owned()
    }
}

/// The text the browser script puts between the url and the title.
pub const OSASCRIPT_OUTPUT_SPECIAL_SEPERATOR: &'static str = " fd850fc2e63511e79f720023dfdf24ec ";

/// A field of the script's output, without surrounding white space and quotes.
pub open spec fn clean_field(p: Seq<char>) -> Seq<char> {
    trim_ws(trim_set(trim_ws(p), CharSet::Quote))
}

/// The fields of the browser script's output: the output without
/// surrounding braces and newlines, split at the separator, each field cleaned.
pub open spec fn osascript_fields_spec(out: Seq<char>) -> Seq<Seq<char>> {
    split_str(trim_set(out, CharSet::Braces), OSASCRIPT_OUTPUT_SPECIAL_SEPERATOR@).map_values(
        |p: Seq<char>| clean_field(p),
    )
}

/// The fields of the browser script's output.
pub fn osascript_fields(output: &str) -> (r: Vec<String>)
    ensures
        r@.map_values(|s: String| s@) == osascript_fields_spec(output@),
{
    let sep_str: &str = OSASCRIPT_OUTPUT_SPECIAL_SEPERATOR;
    proof {
        reveal_strlit(" fd850fc2e63511e79f720023dfdf24ec ");
    }
    let sep = to_chars(sep_str);
    let out = to_chars(output);
    let trimmed = trim_matches(&out, CharSet::Braces);
    let pieces = split_on(&trimmed, &sep);
    let ghost pv = pieces@.map_values(|p: Vec<char>| p@);
    let mut r: Vec<String> = Vec::new();
    let mut i: usize = 0;
    while i < pieces.len()
        invariant
            i <= pieces@.len(),
            pv == pieces@.map_values(|p: Vec<char>| p@),
            r@.map_values(|s: String| s@) == pv.take(i as int).map_values(|p: Seq<char>| clean_field(p)),
        decreases pieces@.len() - i,
    {
        let a = trim_matches(&pieces[i], CharSet::Whitespace);
        let b = trim_matches(&a, CharSet::Quote);
        let c = trim_matches(&b, CharSet::Whitespace);
        let ghost before = r@.map_values(|s: String| s@);
        r.push(from_chars(&c));
        assert(r@.map_values(|s: String| s@) == before.push(clean_field(pv[i as int])));
        assert(pv.take(i + 1).map_values(|p: Seq<char>| clean_field(p)) == pv.take(i as int).map_values(
            |p: Seq<char>| clean_field(p),
        ).push(clean_field(pv[i as int])));
        i += 1;
    }
    assert(pv.take(pieces@.len() as int) == pv);
    r
}

/// The tab named by the two fields url and title: no tab without a url;
/// the url stands for a missing title.
pub fn tab_info_from_fields(fields: Vec<String>) -> (r: Result<BrowserActiveTabInfo, BrowserInfoError>)
    requires
        fields@.len() == 2,
    ensures
        fields@[0]@.len() == 0 <==> r is Err,
        r matches Ok(t) ==> t.url@ == fields@[0]@ && t.title@ == if fields@[1]@.len() == 0 {
            fields@[0]@
        } else {
            fields@[1]@
        },
{
    let url_empty = fields[0].as_str().is_empty();
    let title_empty = fields[1].as_str().is_empty();
    if url_empty {
        Err(BrowserInfoError::NoUrl)
    } else if title_empty {
        Ok(BrowserActiveTabInfo { url: fields[0].clone(), title: fields[0].clone() })
    } else {
        Ok(BrowserActiveTabInfo { url: fields[0].clone(), title: fields[1].clone() })
    }
}

} // verus!
