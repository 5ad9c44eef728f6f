//! The bookmark data the workflow reads from its Pinboard cache.
use vstd::prelude::*;
use crate::text::decimal;
use crate::text::decimal_chars;
use crate::text::from_chars;
use crate::item::owned;

verus! {

/// How a tag came to be listed.
#[derive(Clone, Copy, PartialEq, Eq, Debug)]
pub enum TagFreq {
    /// A tag of the user's, used this many times.
    Freq(usize),
    /// A tag that Pinboard suggests for the page.
    Popular,
    /// A tag that the user is typing and does not have yet.
    New,
}

/// A tag and how it came to be listed.
#[derive(Debug)]
pub struct Tag(pub String, pub TagFreq);

impl View for Tag {
    type V = (Seq<char>, TagFreq);

    open spec fn view(&self) -> (Seq<char>, TagFreq) {
        (self.0@, self.1)
    }
}

impl Tag {
    /// A tag of the user's, used `freq` times.
    pub fn new(name: String, freq: usize) -> (t: Tag)
        ensures
            t@ == (name@, TagFreq::Freq(freq)),
    {
        Tag(name, TagFreq::Freq(freq))
    }

    /// The same tag, marked as one the user does not have yet.
    pub fn set_new(self) -> (t: Tag)
        ensures
            t@ == (self@.0, TagFreq::New),
    {
        Tag(self.0, TagFreq::New)
    }

    /// The same tag, marked as suggested by Pinboard.
    pub fn set_popular(self) -> (t: Tag)
        ensures
            t@ == (self@.0, TagFreq::Popular),
    {
        Tag(self.0, TagFreq::Popular)
    }

    /// A copy of the tag.
    pub fn copy(&self) -> (t: Tag)
        ensures
            t@ == self@,
    {
        Tag(self.0.clone(), self.1)
    }
}

/// What the list shows under a tag: its count, or how it came to be listed.
pub open spec fn freq_text(f: TagFreq) -> Seq<char> {
    match f {
        TagFreq::Freq(n) => decimal(n as nat),
        TagFreq::Popular => "Popular"@,
        TagFreq::New => "NEW TAG"@,
    }
}

/// What the list shows under a tag.
pub fn freq_string(f: TagFreq) -> (r: String)
    ensures
        r@ == freq_text(f),
{
    match f {
        TagFreq::Freq(n) => {
            let v = decimal_chars(n as u64);
            from_chars(&v)
        },
        TagFreq::Popular => owned("Popular"),
        TagFreq::New => owned("NEW TAG"),
    }
}

/// Pinboard's suggestions for a page, each marked as a popular tag.
pub fn popular_tags(names: Vec<String>) -> (tags: Vec<Tag>)
    ensures
        tags@.len() == names@.len(),
        forall|i: int| 0 <= i < names@.len() ==> #[trigger] tags@[i]@ == (names@[i]@, TagFreq::Popular),
{
    let mut tags: Vec<Tag> = Vec::new();
    let mut i: usize = 0;
    while i < names.len()
        invariant
            i <= names@.len(),
            tags@.len() == i,
            forall|k: int| 0 <= k < i ==> #[trigger] tags@[k]@ == (names@[k]@, TagFreq::Popular),
        decreases names@.len() - i,
    {
        tags.push(Tag::new(names[i].clone(), 0).set_popular());
        i += 1;
    }
    tags
}

/// A bookmark.
#[derive(Clone, Debug)]
pub struct Pin {
    pub url: String,
    pub title: String,
    /// The bookmark's tags, separated by spaces.
    pub tags: String,
    /// The bookmark's extended description.
    pub extended: Option<String>,
}

/// Fields of a bookmark that a search can look in.
#[derive(Clone, Copy, PartialEq, Eq, Debug)]
pub enum SearchType {
    TagOnly,
    TitleOnly,
    UrlOnly,
    DescriptionOnly,
}

} // verus!
