use alfred_pinboard_rs::cli::SubCommand;
use alfred_pinboard_rs::commands::browser_info::{osascript_fields, tab_info_from_fields, BrowserActiveTabInfo};
use alfred_pinboard_rs::commands::delete::{delete_outcome, delete_plan, delete_tab_item, DeletePlan};
use alfred_pinboard_rs::commands::post::{perform_post, post_outcome};
use alfred_pinboard_rs::commands::rename::rename_args_valid;
use alfred_pinboard_rs::commands::search::{exact_tag, only_urls, pin_item, search_fields, search_items, site_query, user_query, UrlParts};
use alfred_pinboard_rs::commands::update::{refresh_after, update_step, Change, UpdateAction, UpdateEvent};
use alfred_pinboard_rs::commands::upgrade::{download_report, latest_item, upgrade_info_error_item, upgrade_mode, UpgradeMode};
use alfred_pinboard_rs::commands::{error_report, output_variables, upgrade_item};
use alfred_pinboard_rs::error::AlfredError;
use alfred_pinboard_rs::item::alfred_error_item;
use alfred_pinboard_rs::pins::{Pin, SearchType};
use alfred_pinboard_rs::workflow_config::{release, Config};

fn pin(title: &str, url: &str, tags: &str) -> Pin {
    Pin { url: url.to_string(), title: title.to_string(), tags: tags.to_string(), extended: Some("note".to_string()) }
}

#[test]
fn fields_to_search() {
    assert_eq!(search_fields(true, false, true, false, false, false), vec![SearchType::TagOnly, SearchType::UrlOnly]);
    assert_eq!(search_fields(false, true, false, true, false, true), vec![SearchType::TitleOnly, SearchType::DescriptionOnly]);
    assert_eq!(search_fields(false, false, false, false, false, true), vec![SearchType::TagOnly]);
    assert_eq!(search_fields(false, false, false, false, false, false), vec![SearchType::TagOnly, SearchType::TitleOnly, SearchType::DescriptionOnly, SearchType::UrlOnly]);
    assert!(search_fields(true, true, true, true, true, false).is_empty());
}

#[test]
fn query_joined_by_spaces() {
    assert_eq!(user_query(&vec!["a".to_string(), "b c".to_string()]), "a b c");
    assert_eq!(user_query(&vec![]), "");
}

#[test]
fn site_query_from_urls() {
    let items = search_items(Ok(Some(vec![pin("T", "https://pinboard.in/u:hamid/b:1234567890", "x y")])), 10, false).unwrap();
    assert_eq!(items[0].modifiers[2].arg.as_deref(), Some("pinboard.in u:hamid b:1234567890"));
    let items = search_items(Ok(Some(vec![pin("D", "data:text/plain,Hello?World#", "")])), 10, false).unwrap();
    assert_eq!(items[0].modifiers[2].arg.as_deref(), Some("data text plain,Hello"));
    let items = search_items(Ok(Some(vec![pin("F", "ftp://example.com/a/b", "")])), 10, false).unwrap();
    assert_eq!(items[0].modifiers[2].arg.as_deref(), Some("ftp example.com a b"));
    let parts = UrlParts {
        cannot_be_a_base: false,
        scheme: "https".to_string(),
        host: None,
        segments: Some(vec!["".to_string()]),
        path: "/".to_string(),
    };
    assert_eq!(site_query(&parts), "");
}

#[test]
fn hit_entries() {
    let p = pin("Title", "https://example.com/page", "rust verus");
    let items = search_items(Ok(Some(vec![p.clone()])), 10, true).unwrap();
    let it = &items[0];
    assert_eq!(it.title, "Title");
    assert_eq!(it.subtitle.as_deref(), Some("rust verus"));
    assert_eq!(it.modifiers[0].subtitle.as_deref(), Some("https://example.com/page"));
    assert_eq!(it.modifiers[1].subtitle.as_deref(), Some("note"));
    assert_eq!(it.modifiers[1].valid, Some(true));
    assert_eq!(it.modifiers[2].subtitle.as_deref(), Some("Find bookmark in https://pinboard.in"));
    assert_eq!(it.quicklook_url.as_deref(), Some("https://example.com/page"));
    assert_eq!(it.icon_path.as_deref(), Some("bookmarks.png"));
    let items = search_items(Ok(Some(vec![p])), 10, false).unwrap();
    assert_eq!(items[0].subtitle.as_deref(), Some("https://example.com/page"));
    assert_eq!(items[0].modifiers[0].subtitle.as_deref(), Some("rust verus"));
}

#[test]
fn hits_are_limited_and_checked() {
    let pins = vec![pin("1", "https://a.b/1", ""), pin("2", "https://a.b/2", ""), pin("3", "not a url", "")];
    let items = search_items(Ok(Some(pins.clone())), 2, false).unwrap();
    assert_eq!(items.len(), 2);
    assert!(search_items(Ok(Some(pins)), 3, false).is_none());
    let items = search_items(Ok(None), 3, false).unwrap();
    assert_eq!(items[0].title, "No bookmarks found!");
    let items = search_items(Err("boom".to_string()), 3, false).unwrap();
    assert_eq!(items[0].title, "Error");
    assert_eq!(items[0].subtitle.as_deref(), Some("boom"));
    assert_eq!(alfred_error_item("m".to_string()).icon_path.as_deref(), Some("erroricon.icns"));
}

#[test]
fn urls_only_output() {
    let items = search_items(Ok(Some(vec![pin("1", "https://a.b/1", ""), pin("2", "https://a.b/2", "")])), 5, false).unwrap();
    assert_eq!(only_urls(&items), "https://a.b/1\nhttps://a.b/2\n");
    let none = search_items(Ok(None), 5, false).unwrap();
    assert_eq!(only_urls(&none), "\n");
    let u = pin("x", "https://q.r", "");
    let parts = UrlParts { cannot_be_a_base: false, scheme: "https".into(), host: Some("q.r".into()), segments: None, path: String::new() };
    assert_eq!(pin_item(&u, &parts, false).modifiers[2].arg.as_deref(), Some("q.r"));
}

#[test]
fn browser_output() {
    let out = "{\"https://x.com/a\" fd850fc2e63511e79f720023dfdf24ec \"The Title\"}\n";
    let f = osascript_fields(out);
    assert_eq!(f, vec!["https://x.com/a", "The Title"]);
    let t = tab_info_from_fields(f).unwrap();
    assert_eq!((t.url.as_str(), t.title.as_str()), ("https://x.com/a", "The Title"));
    let f = osascript_fields("{\"https://x.com\" fd850fc2e63511e79f720023dfdf24ec \"\"}");
    let t = tab_info_from_fields(f).unwrap();
    assert_eq!(t.title, "https://x.com");
    let f = osascript_fields(" fd850fc2e63511e79f720023dfdf24ec title");
    assert!(tab_info_from_fields(f).is_err());
    assert_eq!(osascript_fields("no separator").len(), 1);
}

#[test]
fn user_name_from_token() {
    let v = output_variables("hamid:ABC123", vec![("user_query".to_string(), "q".to_string())]).unwrap();
    assert_eq!(v, vec![("username".to_string(), "hamid".to_string()), ("user_query".to_string(), "q".to_string())]);
    assert_eq!(output_variables("nocolon", vec![]).unwrap_err(), "Bad Auth. Token!");
    let v = output_variables(":x:y", vec![]).unwrap();
    assert_eq!(v[0].1, "");
}

#[test]
fn posting() {
    let mut c = Config::new(release(4), String::new(), String::new());
    c.toread_new_pin = true;
    let cmd = SubCommand::Post { tags: vec!["a".into(), "b".into()], description: Some("d".into()), shared: None, toread: Some(false) };
    let tab = BrowserActiveTabInfo { url: "https://u".into(), title: "T".into() };
    let p = perform_post(cmd.clone(), &c, Some(tab)).unwrap();
    assert_eq!((p.tags.as_str(), p.shared.as_str(), p.toread.as_str()), ("a b", "no", "no"));
    assert_eq!(p.description.as_deref(), Some("d"));
    assert!(matches!(perform_post(cmd, &c, None), Err(AlfredError::Post2PinboardFailed(m)) if m == "cannot get browser's info"));
    assert_eq!(post_outcome(true, "T").unwrap(), "Successfully posted: T\n");
    assert!(matches!(post_outcome(false, "T"), Err(AlfredError::Post2PinboardFailed(m)) if m == "Could not post to Pinboard."));
    assert_eq!(error_report(&AlfredError::Post2PinboardFailed("x".into())), "Error: Posting to Pinboard failed: x");
}

#[test]
fn deleting() {
    let p = delete_plan(SubCommand::Delete { url: Some("https://u".into()), tag: Some("t".into()) });
    assert!(matches!(&p, DeletePlan::Tag(t) if t == "t"));
    assert_eq!(delete_outcome(&p, true).unwrap(), "Successfully deleted tag.");
    assert!(matches!(delete_outcome(&p, false), Err(AlfredError::DeleteFailed(m)) if m == "couldn't delete tag"));
    let p = delete_plan(SubCommand::Delete { url: Some("https://u".into()), tag: None });
    assert!(matches!(&p, DeletePlan::Url(u) if u == "https://u"));
    assert_eq!(delete_outcome(&p, true).unwrap(), "Successfully deleted bookmark.");
    assert!(matches!(delete_outcome(&p, false), Err(AlfredError::DeleteFailed(m)) if m == "couldn't delete url"));
    let p = delete_plan(SubCommand::Delete { url: None, tag: None });
    assert!(matches!(p, DeletePlan::BrowserTab));
    assert_eq!(delete_outcome(&p, false).unwrap(), "");
    let it = delete_tab_item(Some(BrowserActiveTabInfo { url: "https://u".into(), title: "T".into() }));
    assert_eq!((it.title.as_str(), it.text_copy.as_deref()), ("T", Some("https://u")));
    let it = delete_tab_item(None);
    assert_eq!((it.title.as_str(), it.subtitle.as_deref()), ("Couldn't get browser's info!", Some("Error")));
}

#[test]
fn renaming_needs_two_tags() {
    assert!(rename_args_valid(&vec!["a".into(), "b".into()]));
    assert!(!rename_args_valid(&vec!["a".into()]));
    assert!(!rename_args_valid(&vec!["a".into(), "".into()]));
    assert!(!rename_args_valid(&vec!["a".into(), "b".into(), "c".into()]));
}

#[test]
fn cache_update_steps() {
    assert!(matches!(update_step(false, UpdateEvent::Compared(Some(false))), UpdateAction::Done(Ok(m)) if m == "Cache is already up-to-date!"));
    assert!(matches!(update_step(true, UpdateEvent::Compared(Some(false))), UpdateAction::Refresh));
    assert!(matches!(update_step(false, UpdateEvent::Compared(Some(true))), UpdateAction::Refresh));
    assert!(matches!(update_step(false, UpdateEvent::Compared(None)), UpdateAction::Done(Err(AlfredError::CacheUpdateFailed(m))) if m == "comparing timestamp with server failed"));
    assert!(matches!(update_step(false, UpdateEvent::Refreshed(true)), UpdateAction::Save));
    assert!(matches!(update_step(false, UpdateEvent::Refreshed(false)), UpdateAction::Done(Err(AlfredError::CacheUpdateFailed(m))) if m == "update_cache failed"));
    assert!(matches!(update_step(false, UpdateEvent::Saved(true)), UpdateAction::Done(Ok(m)) if m == "Updated cache files!"));
    assert!(matches!(update_step(false, UpdateEvent::Saved(false)), UpdateAction::Done(Err(AlfredError::CacheUpdateFailed(m))) if m == "saving update timestamp failed"));
}

#[test]
fn self_upgrade() {
    assert_eq!(upgrade_mode(true, true), UpgradeMode::Conflict);
    assert_eq!(upgrade_mode(true, false), UpgradeMode::Check);
    assert_eq!(upgrade_mode(false, true), UpgradeMode::Download);
    assert_eq!(upgrade_mode(false, false), UpgradeMode::Idle);
    let it = upgrade_item("0.17.1", "0.18.0");
    assert_eq!(it.subtitle.as_deref(), Some("Click to download & upgrade 0.17.1 \u{27f6} 0.18.0"));
    assert_eq!(it.variables, vec![("workflow_update_ready".to_string(), "1".to_string())]);
    assert_eq!(latest_item().variables[0].1, "0");
    assert_eq!(upgrade_info_error_item().title, "Error in getting upgrade info!");
    assert_eq!(download_report(Some(Some("/tmp/w".into()))), ("Download Successful: /tmp/w".to_string(), false));
    assert_eq!(download_report(Some(None)).0, "Download OK, issue with its file name!");
    assert_eq!(download_report(None), ("Error: Couldn't download the latest workflow.".to_string(), true));
}

#[test]
fn exact_tag_takes_first_word() {
    let q = vec!["rust".to_string(), "verus".to_string()];
    assert_eq!(exact_tag(true, &q), Some("rust".to_string()));
    assert_eq!(exact_tag(false, &q), None);
}

#[test]
fn cache_refresh_after_changes() {
    let mut c = Config::new(release(4), String::new(), String::new());
    assert_eq!(refresh_after(Change::Posted, &c), Some(false));
    assert_eq!(refresh_after(Change::Deleted, &c), Some(false));
    assert_eq!(refresh_after(Change::Renamed, &c), Some(true));
    c.auto_update_cache = false;
    assert_eq!(refresh_after(Change::Posted, &c), None);
    assert_eq!(refresh_after(Change::Renamed, &c), None);
}
