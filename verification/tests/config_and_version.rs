use alfred_pinboard_rs::cli::SubCommand;
use alfred_pinboard_rs::commands::config::{run, show_config, update};
use alfred_pinboard_rs::error::AlfredError;
use alfred_pinboard_rs::workflow_config::{get_alfred_version, get_epoch, release, AlfredVersion, Config};

fn version(major: u64, pre: &str) -> AlfredVersion {
    AlfredVersion { major, minor: 0, patch: 0, pre: pre.to_string(), build: String::new() }
}

fn defaults() -> Config {
    Config::new(release(4), "/data".to_string(), "/cache".to_string())
}

fn config_cmd(display: bool) -> SubCommand {
    SubCommand::Config {
        display,
        auth_token: None,
        number_pins: None,
        number_tags: None,
        shared: None,
        toread: None,
        fuzzy: None,
        tags_only: None,
        auto_update: None,
        suggest_tags: None,
        check_bookmarked_page: None,
        show_url_vs_tags: None,
    }
}

#[test]
fn defaults_are_documented_values() {
    let c = defaults();
    assert_eq!(c.pins_to_show, 10);
    assert_eq!(c.tags_to_show, 10);
    assert!(!c.tag_only_search && !c.fuzzy_search && !c.toread_new_pin);
    assert!(c.private_new_pin && c.page_is_bookmarked && c.auto_update_cache && c.show_url_vs_tags);
    assert!(c.suggest_tags);
    assert_eq!(c.auth_token, "");
    assert_eq!(c.update_time.secs, 82800);
    assert_eq!(c.data_dir(), "/data");
    assert_eq!(c.cache_dir(), "/cache");
    let e = get_epoch();
    assert_eq!((e.secs, e.nanos), (82800, 0));
}

#[test]
fn discover_dirs_sets_folders() {
    let mut c = defaults();
    c.discover_dirs(("/d2".to_string(), "/c2".to_string()));
    assert_eq!(c.data_dir(), "/d2");
    assert_eq!(c.cache_dir(), "/c2");
    assert_eq!(c.pins_to_show, 10);
}

#[test]
fn options_replace_settings() {
    let mut cmd = config_cmd(true);
    if let SubCommand::Config { auth_token, number_pins, shared, fuzzy, .. } = &mut cmd {
        *auth_token = Some("me:TOKEN".to_string());
        *number_pins = Some(25);
        *shared = Some(true);
        *fuzzy = Some(true);
    }
    let (c, display) = run(cmd, Ok(defaults()), defaults()).unwrap();
    assert!(display);
    assert_eq!(c.auth_token, "me:TOKEN");
    assert_eq!(c.pins_to_show, 25);
    assert_eq!(c.tags_to_show, 10);
    assert!(!c.private_new_pin);
    assert!(c.fuzzy_search);
}

#[test]
fn no_option_keeps_settings() {
    let mut start = defaults();
    start.tags_to_show = 7;
    start.private_new_pin = false;
    let (c, display) = run(config_cmd(false), Ok(start), defaults()).unwrap();
    assert!(!display);
    assert_eq!(c.tags_to_show, 7);
    assert!(!c.private_new_pin);
}

#[test]
fn same_options_twice_change_nothing_more() {
    let mut cmd = config_cmd(false);
    if let SubCommand::Config { number_tags, shared, .. } = &mut cmd {
        *number_tags = Some(3);
        *shared = Some(false);
    }
    let (once, _) = run(cmd.clone(), Ok(defaults()), defaults()).unwrap();
    let (twice, _) = run(cmd, Ok(once.clone()), defaults()).unwrap();
    assert_eq!(once.tags_to_show, twice.tags_to_show);
    assert_eq!(once.private_new_pin, twice.private_new_pin);
    assert!(twice.private_new_pin);
}

#[test]
fn first_run_with_token_starts_from_defaults() {
    let mut cmd = config_cmd(false);
    if let SubCommand::Config { auth_token, .. } = &mut cmd {
        *auth_token = Some("user:abc123".to_string());
    }
    let (c, _) = run(cmd, Err(AlfredError::MissingConfigFile), defaults()).unwrap();
    assert_eq!(c.auth_token, "user:abc123");
    assert_eq!(c.pins_to_show, 10);
}

#[test]
fn first_run_without_token_fails() {
    let r = run(config_cmd(false), Err(AlfredError::MissingConfigFile), defaults());
    assert!(matches!(r, Err(AlfredError::MissingConfigFile)));
    let mut cmd = config_cmd(false);
    if let SubCommand::Config { auth_token, .. } = &mut cmd {
        *auth_token = Some("a:b".to_string());
    }
    let r = run(cmd, Err(AlfredError::ConfigFileErr), defaults());
    assert!(matches!(r, Err(AlfredError::ConfigFileErr)));
}

#[test]
fn optional_update() {
    let mut x = 3u8;
    update(&mut x, None);
    assert_eq!(x, 3);
    update(&mut x, Some(9));
    assert_eq!(x, 9);
}

#[test]
fn show_config_lists_settings() {
    let mut c = defaults();
    c.alfred_version = version(3, "");
    c.tags_to_show = 12;
    let items = show_config(&c, "2024-01-02 03:04:05".to_string());
    assert_eq!(items.len(), 12);
    assert_eq!(items[0].title, "Only search tags");
    assert_eq!(items[0].subtitle.as_deref(), Some("false"));
    assert_eq!(items[0].arg.as_deref(), Some("pset tagonly"));
    assert_eq!(items[3].subtitle.as_deref(), Some("true"));
    assert_eq!(items[5].subtitle.as_deref(), Some("true"));
    assert_eq!(items[8].subtitle.as_deref(), Some("12"));
    assert_eq!(items[9].subtitle.as_deref(), Some("10"));
    assert_eq!(items[10].subtitle, None);
    assert_eq!(items[11].title, "2024-01-02 03:04:05");
    assert_eq!(items[11].subtitle.as_deref(), Some("Latest cache update"));
}

#[test]
fn show_config_for_every_version() {
    let mut c = defaults();
    c.alfred_version = version(2, "");
    let old = show_config(&c, String::new());
    assert_eq!(old.len(), 12);
    assert_eq!(old[1].title, "Use fuzzy search");
    c.alfred_version = version(5, "beta");
    let early = show_config(&c, String::new());
    assert_eq!(early.len(), 12);
    assert_eq!(early[11].subtitle.as_deref(), Some("Latest cache update"));
}

#[test]
fn json_from_version_three() {
    let mut c = defaults();
    for (major, pre, expected) in [(2, "", false), (3, "", true), (5, "", true), (4, "rc.1", true), (2, "beta", false), (0, "", false)] {
        c.alfred_version = version(major, pre);
        assert_eq!(c.can_use_json(), expected, "{major} {pre}");
    }
    c.alfred_version = AlfredVersion { major: 3, minor: 7, patch: 2, pre: String::new(), build: "b12".to_string() };
    assert!(c.can_use_json());
}

#[test]
fn alfred_version_parsing() {
    let v = get_alfred_version(None);
    assert_eq!((v.major, v.minor, v.patch), (2, 0, 0));
    let v = get_alfred_version(Some("4.8.1".to_string()));
    assert_eq!((v.major, v.minor, v.patch, v.pre.as_str()), (4, 8, 1, ""));
    let v = get_alfred_version(Some("5.0.0-beta.1+build7".to_string()));
    assert_eq!((v.major, v.pre.as_str(), v.build.as_str()), (5, "beta.1", "build7"));
    let v = get_alfred_version(Some("5.0".to_string()));
    assert_eq!((v.major, v.minor, v.patch, v.pre.as_str()), (5, 0, 0, ""));
    let v = get_alfred_version(Some("+12.3".to_string()));
    assert_eq!(v.major, 12);
    let v = get_alfred_version(Some("x.y".to_string()));
    assert_eq!(v.major, 2);
    let v = get_alfred_version(Some("abc".to_string()));
    assert_eq!(v.major, 2);
    let v = get_alfred_version(Some("99999999999999999999.1".to_string()));
    assert_eq!(v.major, 2);
}

#[test]
fn error_messages() {
    assert_eq!(AlfredError::ConfigFileErr.message(), "Config file may be corrupted");
    assert_eq!(AlfredError::MissingConfigFile.message(), "Missing config file (did you set API token?)");
    assert_eq!(AlfredError::Other.message(), "What did you do?");
    assert_eq!(AlfredError::CacheUpdateFailed("x".to_string()).message(), "Cache update failed: x");
    assert_eq!(AlfredError::Post2PinboardFailed("y".to_string()).message(), "Posting to Pinboard failed: y");
    assert_eq!(AlfredError::DeleteFailed("z".to_string()).message(), "Deleting from Pinboard failed: z");
}
