use alfred_pinboard_rs::commands::list::{
    bookmark_items, checks_bookmark, exec_counter, last_query_word, note_item, present_item, query_words,
    tag_items, wants_popular_tags,
};
use alfred_pinboard_rs::pins::{freq_string, popular_tags, Pin, Tag, TagFreq};
use alfred_pinboard_rs::workflow_config::{release, Config};

fn config(tags_to_show: u8) -> Config {
    let mut c = Config::new(release(4), String::new(), String::new());
    c.tags_to_show = tags_to_show;
    c
}

fn tags(list: &[(&str, usize)]) -> Vec<Tag> {
    list.iter().map(|(n, f)| Tag::new(n.to_string(), *f)).collect()
}

fn titles(items: &[alfred_pinboard_rs::item::AlfredItem]) -> Vec<String> {
    items.iter().map(|i| i.title.clone()).collect()
}

fn var<'a>(item: &'a alfred_pinboard_rs::item::AlfredItem, key: &str) -> Option<&'a str> {
    item.variables.iter().find(|(k, _)| k == key).map(|(_, v)| v.as_str())
}

#[test]
fn words_split_on_any_white_space() {
    assert_eq!(query_words("  rust  verus\tproof \n"), vec!["rust", "verus", "proof"]);
    assert!(query_words("   ").is_empty());
    assert_eq!(last_query_word("rust ver"), "ver");
    assert_eq!(last_query_word(""), "");
}

#[test]
fn exact_tag_comes_first() {
    let c = config(10);
    let found = tags(&[("verus", 5), ("ver", 3), ("vertical", 1)]);
    let items = tag_items(&c, "rust ver", Ok(Some(found)), &Vec::new(), true, false);
    assert_eq!(titles(&items), vec!["ver", "verus", "vertical"]);
    assert_eq!(items[0].subtitle.as_deref(), Some("3"));
    assert_eq!(items[1].subtitle.as_deref(), Some("5"));
    assert_eq!(items[0].autocomplete.as_deref(), Some("rust ver"));
    assert_eq!(items[1].arg.as_deref(), Some("rust verus"));
    assert_eq!(var(&items[1], "tags"), Some("rust verus"));
    assert_eq!(var(&items[1], "shared"), Some("false"));
    assert_eq!(var(&items[1], "toread"), Some("false"));
    assert_eq!(items[1].icon_path.as_deref(), Some("tag.png"));
    assert!(items[1].valid);
}

#[test]
fn typed_word_offered_as_new_tag() {
    let c = config(10);
    let items = tag_items(&c, "rust xyz", Ok(Some(tags(&[("xyzzy", 2)]))), &Vec::new(), true, false);
    assert_eq!(titles(&items), vec!["xyz", "xyzzy"]);
    assert_eq!(items[0].subtitle.as_deref(), Some("NEW TAG"));
    let items = tag_items(&c, "abc", Ok(None), &Vec::new(), true, false);
    assert_eq!(titles(&items), vec!["abc"]);
    assert_eq!(items[0].autocomplete.as_deref(), Some("abc"));
}

#[test]
fn typed_word_needs_query_item() {
    let c = config(10);
    let items = tag_items(&c, "rust xyz", Ok(Some(tags(&[("xyzzy", 2)]))), &Vec::new(), false, false);
    assert_eq!(titles(&items), vec!["xyzzy"]);
    assert_eq!(items[0].subtitle.as_deref(), Some("2"));
    assert_eq!(items[0].arg.as_deref(), Some("rust xyzzy"));
    let popular = popular_tags(vec!["web".to_string(), "tool".to_string()]);
    let items = tag_items(&c, "we", Ok(Some(tags(&[("web", 9), ("west", 1)]))), &popular, false, false);
    assert_eq!(titles(&items), vec!["web", "web", "tool", "west"]);
    let found = tags(&[("verus", 5), ("ver", 3)]);
    let items = tag_items(&c, "rust ver", Ok(Some(found)), &Vec::new(), false, false);
    assert_eq!(titles(&items), vec!["ver", "verus"]);
}

#[test]
fn popular_tags_follow_top_tags() {
    let c = config(10);
    let popular = popular_tags(vec!["web".to_string(), "tool".to_string()]);
    let items = tag_items(&c, "we", Ok(Some(tags(&[("web", 9), ("west", 1)]))), &popular, true, false);
    assert_eq!(titles(&items), vec!["we", "web", "web", "tool", "west"]);
    assert_eq!(items[2].subtitle.as_deref(), Some("Popular"));
}

#[test]
fn typed_tags_are_not_offered_again() {
    let c = config(10);
    let items = tag_items(&c, "rust r", Ok(Some(tags(&[("rust", 4), ("ruby", 2)]))), &Vec::new(), true, false);
    assert_eq!(titles(&items), vec!["r", "ruby"]);
    let items = tag_items(&c, "rust rust", Ok(Some(tags(&[("rust", 4)]))), &Vec::new(), true, false);
    assert_eq!(titles(&items), vec!["Hit Return to bookmark the page!"]);
    assert_eq!(items[0].subtitle.as_deref(), Some("You may have entered duplicate tags!"));
    assert_eq!(var(&items[0], "tags"), Some("rust rust"));
}

#[test]
fn tag_count_is_limited() {
    let c = config(2);
    let found = tags(&[("a1", 9), ("a2", 8), ("a3", 7), ("a4", 6)]);
    let items = tag_items(&c, "a", Ok(Some(found)), &Vec::new(), true, true);
    assert_eq!(titles(&items), vec!["You already have the bookmark!", "a", "a1"]);
    assert_eq!(items[0].icon_path.as_deref(), Some("bookmark-delete.png"));
}

#[test]
fn search_error_leaves_posting_entry() {
    let c = config(10);
    let items = tag_items(&c, "foo", Err(()), &Vec::new(), true, false);
    assert_eq!(titles(&items), vec!["Hit Return to bookmark the page!"]);
    let items = tag_items(&c, "", Err(()), &Vec::new(), true, false);
    assert!(items.is_empty());
    let items = tag_items(&c, "", Ok(Some(tags(&[("all", 1)]))), &Vec::new(), true, false);
    assert_eq!(titles(&items), vec!["", "all"]);
}

#[test]
fn modifier_hints_follow_settings() {
    let mut c = config(10);
    c.private_new_pin = false;
    c.toread_new_pin = true;
    let items = tag_items(&c, "x", Ok(None), &Vec::new(), true, false);
    let m = &items[0].modifiers;
    assert_eq!(m[0].subtitle.as_deref(), Some("Post the bookmark as private."));
    assert_eq!(m[1].subtitle.as_deref(), Some("Mark the bookmark as NOT toread."));
    assert_eq!(var(&items[0], "shared"), Some("true"));
    assert_eq!(var(&items[0], "toread"), Some("true"));
}

#[test]
fn note_after_semicolon() {
    let c = config(10);
    let item = note_item(&c, "tag1 tag2 ; my note \\").unwrap();
    assert_eq!(item.title, "Hit Return to bookmark the page!");
    assert_eq!(var(&item, "tags"), Some("tag1 tag2"));
    assert_eq!(var(&item, "description"), Some("my note"));
    assert_eq!(item.arg.as_deref(), Some("tag1 tag2 ; my note \\"));
    let item = note_item(&c, "a;b;c").unwrap();
    assert_eq!(var(&item, "tags"), Some("a"));
    assert_eq!(var(&item, "description"), Some("b;c"));
    let item = note_item(&c, "only tags;  ").unwrap();
    assert_eq!(var(&item, "description"), None);
    assert!(note_item(&c, "no note here").is_none());
}

#[test]
fn plain_bookmark_list() {
    let mut c = config(10);
    c.pins_to_show = 2;
    let pin = |t: &str, u: &str| Pin { url: u.to_string(), title: t.to_string(), tags: String::new(), extended: None };
    let pins = vec![pin("A", "https://a"), pin("B", "https://b"), pin("C", "https://c")];
    let items = bookmark_items(&c, &pins);
    assert_eq!(titles(&items), vec!["A", "B"]);
    assert_eq!(items[1].subtitle.as_deref(), Some("https://b"));
    assert_eq!(items[1].arg.as_deref(), Some("https://b"));
}

#[test]
fn suggestion_and_bookmark_checks() {
    let mut c = config(10);
    c.suggest_tags = true;
    assert!(wants_popular_tags(None, &c));
    assert!(!wants_popular_tags(Some(false), &c));
    assert!(checks_bookmark(false, &c));
    assert!(!checks_bookmark(true, &c));
    c.page_is_bookmarked = false;
    assert!(!checks_bookmark(false, &c));
    assert_eq!(present_item().title, "You already have the bookmark!");
}

#[test]
fn execution_counter() {
    assert_eq!(exec_counter(None), 1);
    assert_eq!(exec_counter(Some("3".to_string())), 3);
    assert_eq!(exec_counter(Some("+4".to_string())), 4);
    assert_eq!(exec_counter(Some("-4".to_string())), 1);
    assert_eq!(exec_counter(Some("".to_string())), 1);
    assert_eq!(exec_counter(Some("12a".to_string())), 1);
    assert_eq!(exec_counter(Some("99999999999999999999".to_string())), 1);
}

#[test]
fn tag_markers() {
    assert_eq!(freq_string(TagFreq::Freq(1234)), "1234");
    assert_eq!(freq_string(TagFreq::Freq(0)), "0");
    let t = Tag::new("x".to_string(), 1).set_new();
    assert_eq!(t.1, TagFreq::New);
    let t = t.set_popular();
    assert_eq!(t.1, TagFreq::Popular);
    assert_eq!(t.copy().0, "x");
}
