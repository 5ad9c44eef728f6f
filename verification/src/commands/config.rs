//! The `config` sub-command: changing and showing the settings.
use vstd::prelude::*;
use crate::cli::SubCommand;
use crate::error::AlfredError;
use crate::item::AlfredItem;
use crate::item::ItemView;
use crate::item::new_item;
use crate::item::owned;
use crate::item::plain_item;
use crate::text::decimal;
use crate::text::decimal_chars;
use crate::text::from_chars;
use crate::workflow_config::Config;

verus! {

/// `cur`, replaced by the value in `opt` where there is one.
pub open spec fn upd<T>(cur: T, opt: Option<T>) -> T {
    match opt {
        Some(v) => v,
        None => cur,
    }
}

/// Replaces `*slot` by the value in `opt`, if there is one.
pub fn update<T>(slot: &mut T, opt: Option<T>)
    ensures
        *final(slot) == upd(*old(slot), opt),
{
    if let Some(val) = opt {
        *slot = val;
    }
}

/// The settings `c` after the options of the `config` command `x`: each
/// option that is given replaces its setting; `shared` sets the opposite of
/// "private".
pub open spec fn apply_options(c: Config, x: SubCommand) -> Config {
    match x {
        SubCommand::Config {
            display,
            auth_token,
            number_pins,
            number_tags,
            shared,
            toread,
            fuzzy,
            tags_only,
            auto_update,
            suggest_tags,
            check_bookmarked_page,
            show_url_vs_tags,
        } => Config {
            auth_token: upd(c.auth_token, auth_token),
            pins_to_show: upd(c.pins_to_show, number_pins),
            tags_to_show: upd(c.tags_to_show, number_tags),
            private_new_pin: !upd(!c.private_new_pin, shared),
            toread_new_pin: upd(c.toread_new_pin, toread),
            fuzzy_search: upd(c.fuzzy_search, fuzzy),
            tag_only_search: upd(c.tag_only_search, tags_only),
            auto_update_cache: upd(c.auto_update_cache, auto_update),
            suggest_tags: upd(c.suggest_tags, suggest_tags),
            page_is_bookmarked: upd(c.page_is_bookmarked, check_bookmarked_page),
            show_url_vs_tags: upd(c.show_url_vs_tags, show_url_vs_tags),
            ..c
        },
        _ => c,
    }
}

/// The settings the `config` command starts from: those read from the
/// settings file; when there is no such file and a token is given, the
/// defaults `fresh` with that token; otherwise the error stands.
pub open spec fn start_config(
    x: SubCommand,
    loaded: Result<Config, AlfredError>,
    fresh: Config,
) -> Result<Config, AlfredError> {
    match loaded {
        Ok(c) => Ok(c),
        Err(e) => match x {
            SubCommand::Config { auth_token, .. } => {
                if auth_token is Some && e is MissingConfigFile {
                    Ok(Config { auth_token: auth_token->0, ..fresh })
                } else {
                    Err(e)
                }
            },
            _ => Err(e),
        },
    }
}

/// Whether `x` asks to show the settings afterwards.
pub open spec fn wants_display(x: SubCommand) -> bool {
    match x {
        SubCommand::Config { display, .. } => display,
        _ => false,
    }
}

/// The settings `c` after the options of the `config` command `x`.
fn apply_to(c: Config, x: SubCommand) -> (r: Config)
    requires
        x is Config,
    ensures
        r == apply_options(c, x),
{
    let ghost x0 = x;
    let ghost c0 = c;
    let mut config = c;
    match x {
        SubCommand::Config {
            auth_token,
            number_pins,
            number_tags,
            shared,
            toread,
            fuzzy,
            tags_only,
            auto_update,
            suggest_tags,
            check_bookmarked_page,
            show_url_vs_tags,
            ..
        } => {
            update(&mut config.auth_token, auth_token);
            update(&mut config.pins_to_show, number_pins);
            update(&mut config.tags_to_show, number_tags);
            config.private_new_pin = !shared.unwrap_or(!config.private_new_pin);
            update(&mut config.toread_new_pin, toread);
            update(&mut config.fuzzy_search, fuzzy);
            update(&mut config.tag_only_search, tags_only);
            update(&mut config.auto_update_cache, auto_update);
            update(&mut config.suggest_tags, suggest_tags);
            update(&mut config.page_is_bookmarked, check_bookmarked_page);
            update(&mut config.show_url_vs_tags, show_url_vs_tags);
            config
        },
        _ => config,
    }
}

/// The settings the `config` command `x` starts from.
fn start(x: &SubCommand, loaded: Result<Config, AlfredError>, fresh: Config) -> (r: Result<
    Config,
    AlfredError,
>)
    ensures
        r == start_config(*x, loaded, fresh),
{
    match loaded {
        Ok(c) => Ok(c),
        Err(err) => {
            let missing = match err {
                AlfredError::MissingConfigFile => true,
                _ => false,
            };
            match x {
                SubCommand::Config { auth_token, .. } => {
                    if auth_token.is_some() && missing {
                        let mut c = fresh;
                        c.auth_token = auth_token.clone().unwrap();
                        Ok(c)
                    } else {
                        Err(err)
                    }
                },
                _ => Err(err),
            }
        },
    }
}

/// Runs the `config` command `x` on the settings read from the settings file
/// (`loaded`), where `fresh` holds the defaults: the settings to save and
/// whether to show them, or the error to report.
pub fn run(x: SubCommand, loaded: Result<Config, AlfredError>, fresh: Config) -> (r: Result<
    (Config, bool),
    AlfredError,
>)
    requires
        x is Config,
    ensures
        r matches Ok((c, display)) ==> start_config(x, loaded, fresh) matches Ok(s) && c
            == apply_options(s, x) && display == wants_display(x),
        r matches Err(e) ==> start_config(x, loaded, fresh) == Err::<Config, AlfredError>(e),
{
    let print_config = match &x {
        SubCommand::Config { display, .. } => *display,
        _ => false,
    };
    match start(&x, loaded, fresh) {
        Ok(c) => Ok((apply_to(c, x), print_config)),
        Err(e) => Err(e),
    }
}

/// The text `{:?}` gives for a flag.
pub open spec fn bool_text(b: bool) -> Seq<char> {
    if b {
        "true"@
    } else {
        "false"@
    }
}

/// A settings entry: its name, its value, the command that changes it, its icon.
pub open spec fn setting_view(title: Seq<char>, value: Seq<char>, arg: Seq<char>, icon: Seq<char>) -> ItemView {
    ItemView { subtitle: Some(value), arg: Some(arg), icon_path: Some(icon), ..plain_item(title) }
}

/// The entries that show the settings `c`; `updated` is the time of the last
/// cache update as text.
pub open spec fn config_items(c: Config, updated: Seq<char>) -> Seq<ItemView> {
    seq![
        setting_view("Only search tags"@, bool_text(c.tag_only_search), "pset tagonly"@, "tagonly.png"@),
        setting_view("Use fuzzy search"@, bool_text(c.fuzzy_search), "pset fuzzy"@, "fuzzy.png"@),
        setting_view("Automatically update cache"@, bool_text(c.auto_update_cache), "pset auto"@, "auto_update_cache.png"@),
        setting_view("Suggest popular tags for open browser tab"@, bool_text(c.suggest_tags), "pset suggest_tags"@, "suggest.png"@),
        setting_view("Mark new bookmarks as toread"@, bool_text(c.toread_new_pin), "pset toread"@, "toread.png"@),
        setting_view("Mark new bookmarks as private"@, bool_text(c.private_new_pin), "pset shared"@, "private.png"@),
        setting_view("Check if page is bookmarked"@, bool_text(c.page_is_bookmarked), "pset check_bookmarked"@, "check_bookmarked_page.png"@),
        setting_view("Show TAGs vs URLs in search results"@, bool_text(c.show_url_vs_tags), "pset url_tag"@, "url.png"@),
        setting_view("Number of tags to show"@, decimal(c.tags_to_show as nat), "pset tags"@, "no_of_tags.png"@),
        setting_view("Number of bookmarks to show"@, decimal(c.pins_to_show as nat), "pset bookmarks"@, "no_of_pins.png"@),
        ItemView { arg: Some("pcheck"@), icon_path: Some("check_update.png"@), ..plain_item("Click to check for Workflow updates."@) },
        setting_view(updated, "Latest cache update"@, "pupdate"@, "auto_update.png"@),
    ]
}

/// The text `{:?}` gives for a flag.
pub fn bool_string(b: bool) -> (r: String)
    ensures
        r@ == bool_text(b),
{
    if b {
        owned("true")
    } else {
        owned("false")
    }
}

/// The decimal text of a count.
pub fn count_string(n: u8) -> (r: String)
    ensures
        r@ == decimal(n as nat),
{
    let v = decimal_chars(n as u64);
    from_chars(&v)
}

fn setting_item(title: String, value: String, arg: &str, icon: &str) -> (r: AlfredItem)
    ensures
        r@ == setting_view(title@, value@, arg@, icon@),
{
    let mut r = new_item(title);
    r.subtitle = Some(value);
    r.arg = Some(owned(arg));
    r.icon_path = Some(owned(icon));
    r
}

/// The entries that show the settings, for every Alfred version (written as
/// JSON or XML as the version reads). `updated` is the time of the last cache
/// update as text.
pub fn show_config(config: &Config, updated: String) -> (r: Vec<AlfredItem>)
    ensures
        r@.map_values(|i: AlfredItem| i@) == config_items(*config, updated@),
{
    let mut items: Vec<AlfredItem> = Vec::new();
    items.push(setting_item(owned("Only search tags"), bool_string(config.tag_only_search), "pset tagonly", "tagonly.png"));
    items.push(setting_item(owned("Use fuzzy search"), bool_string(config.fuzzy_search), "pset fuzzy", "fuzzy.png"));
    items.push(setting_item(owned("Automatically update cache"), bool_string(config.auto_update_cache), "pset auto", "auto_update_cache.png"));
    items.push(setting_item(owned("Suggest popular tags for open browser tab"), bool_string(config.suggest_tags), "pset suggest_tags", "suggest.png"));
    items.push(setting_item(owned("Mark new bookmarks as toread"), bool_string(config.toread_new_pin), "pset toread", "toread.png"));
    items.push(setting_item(owned("Mark new bookmarks as private"), bool_string(config.private_new_pin), "pset shared", "private.png"));
    items.push(setting_item(owned("Check if page is bookmarked"), bool_string(config.page_is_bookmarked), "pset check_bookmarked", "check_bookmarked_page.png"));
    items.push(setting_item(owned("Show TAGs vs URLs in search results"), bool_string(config.show_url_vs_tags), "pset url_tag", "url.png"));
    items.push(setting_item(owned("Number of tags to show"), count_string(config.tags_to_show), "pset tags", "no_of_tags.png"));
    items.push(setting_item(owned("Number of bookmarks to show"), count_string(config.pins_to_show), "pset bookmarks", "no_of_pins.png"));
    let mut check = new_item(owned("Click to check for Workflow updates."));
    check.arg = Some(owned("pcheck"));
    check.icon_path = Some(owned("check_update.png"));
    items.push(check);
    items.push(setting_item(updated, owned("Latest cache update"), "pupdate", "auto_update.png"));
    assert(items@.map_values(|i: AlfredItem| i@) =~= config_items(*config, updated@));
    items
}

/// A `config` command that gives no option leaves the settings as they were.
pub proof fn lemma_no_option_keeps_settings(c: Config, display: bool)
    ensures
        apply_options(
            c,
            SubCommand::Config {
                display,
                auth_token: None,
                number_pins: None,
                number_tags: None,
                shared: None,
                toread: None,
                fuzzy: None,
                tags_only: None,
                auto_update: None,
                suggest_tags: None,
                check_bookmarked_page: None,
                show_url_vs_tags: None,
            },
        ) == c,
{
}

/// Giving the same options a second time changes nothing more.
pub proof fn lemma_options_idempotent(c: Config, x: SubCommand)
    requires
        x is Config,
    ensures
        apply_options(apply_options(c, x), x) == apply_options(c, x),
{
}

/// The `shared` option makes new bookmarks private exactly when it is false;
/// without it, the privacy setting stays.
pub proof fn lemma_shared_decides_privacy(c: Config, x: SubCommand)
    requires
        x is Config,
    ensures
        x->Config_shared matches Some(s) ==> apply_options(c, x).private_new_pin == !s,
        x->Config_shared is None ==> apply_options(c, x).private_new_pin == c.private_new_pin,
{
}

/// Every option of the `config` command that is given replaces its own
/// setting, and every option that is not given leaves its setting as it was;
/// the folders, the Alfred version and the update time never change.
pub proof fn lemma_given_options_replace_settings(c: Config, x: SubCommand)
    requires
        x is Config,
    ensures
        ({
            let r = apply_options(c, x);
            &&& r.auth_token == upd(c.auth_token, x->Config_auth_token)
            &&& (x->Config_auth_token matches Some(t) ==> r.auth_token == t)
            &&& (x->Config_auth_token is None ==> r.auth_token == c.auth_token)
            &&& (x->Config_number_pins matches Some(n) ==> r.pins_to_show == n)
            &&& (x->Config_number_pins is None ==> r.pins_to_show == c.pins_to_show)
            &&& (x->Config_number_tags matches Some(n) ==> r.tags_to_show == n)
            &&& (x->Config_number_tags is None ==> r.tags_to_show == c.tags_to_show)
            &&& (x->Config_toread matches Some(b) ==> r.toread_new_pin == b)
            &&& (x->Config_toread is None ==> r.toread_new_pin == c.toread_new_pin)
            &&& (x->Config_fuzzy matches Some(b) ==> r.fuzzy_search == b)
            &&& (x->Config_fuzzy is None ==> r.fuzzy_search == c.fuzzy_search)
            &&& (x->Config_tags_only matches Some(b) ==> r.tag_only_search == b)
            &&& (x->Config_tags_only is None ==> r.tag_only_search == c.tag_only_search)
            &&& (x->Config_auto_update matches Some(b) ==> r.auto_update_cache == b)
            &&& (x->Config_auto_update is None ==> r.auto_update_cache == c.auto_update_cache)
            &&& (x->Config_suggest_tags matches Some(b) ==> r.suggest_tags == b)
            &&& (x->Config_suggest_tags is None ==> r.suggest_tags == c.suggest_tags)
            &&& (x->Config_check_bookmarked_page matches Some(b) ==> r.page_is_bookmarked == b)
            &&& (x->Config_check_bookmarked_page is None ==> r.page_is_bookmarked == c.page_is_bookmarked)
            &&& (x->Config_show_url_vs_tags matches Some(b) ==> r.show_url_vs_tags == b)
            &&& (x->Config_show_url_vs_tags is None ==> r.show_url_vs_tags == c.show_url_vs_tags)
            &&& (x->Config_shared matches Some(b) ==> r.private_new_pin == !b)
            &&& (x->Config_shared is None ==> r.private_new_pin == c.private_new_pin)
            &&& r.alfred_version == c.alfred_version
            &&& r.update_time == c.update_time
            &&& r.workflow_data_dir == c.workflow_data_dir
            &&& r.workflow_cache_dir == c.workflow_cache_dir
        }),
{
}

} // verus!
