//! The `post` sub-command: bookmarking the active browser tab.
use vstd::prelude::*;
use crate::cli::SubCommand;
use crate::commands::browser_info::BrowserActiveTabInfo;
use crate::error::AlfredError;
use crate::item::owned;
use crate::text::append_chars;
use crate::text::from_chars;
use crate::text::join;
use crate::commands::search::user_query;
use crate::text::to_chars;
use crate::workflow_config::Config;

verus! {

/// What is sent to Pinboard to add a bookmark.
#[derive(Clone, Debug)]
pub struct PinRequest {
    pub url: String,
    pub title: String,
    /// The tags, separated by spaces.
    pub tags: String,
    /// `yes` or `no`.
    pub shared: String,
    /// `yes` or `no`.
    pub toread: String,
    pub description: Option<String>,
}

/// `yes` for true, `no` for false.
pub open spec fn yes_no(b: bool) -> Seq<char> {
    if b {
        "yes"@
    } else {
        "no"@
    }
}

fn yes_no_string(b: bool) -> (r: String)
    ensures
        r@ == yes_no(b),
{
    if b {
        owned("yes")
    } else {
        owned("no")
    }
}

/// Whether the new bookmark is shared: as the command says, else as the settings say.
pub open spec fn post_shared(x: SubCommand, c: Config) -> bool {
    match x->Post_shared {
        Some(b) => b,
        None => !c.private_new_pin,
    }
}

/// Whether the new bookmark is to be read: as the command says, else as the settings say.
pub open spec fn post_toread(x: SubCommand, c: Config) -> bool {
    match x->Post_toread {
        Some(b) => b,
        None => c.toread_new_pin,
    }
}

/// The bookmark that the `post` command `cmd` adds for the tab `tab`;
/// without a tab, the failure to report.
pub fn perform_post(cmd: SubCommand, config: &Config, tab: Option<BrowserActiveTabInfo>) -> (r: Result<
    PinRequest,
    AlfredError,
>)
    requires
        cmd is Post,
    ensures
        tab is None ==> (r matches Err(AlfredError::Post2PinboardFailed(m)) && m@
            == "cannot get browser's info"@),
        tab matches Some(t) ==> (r matches Ok(p) && p.url@ == t.url@ && p.title@ == t.title@
            && p.tags@ == join(cmd->Post_tags@.map_values(|s: String| s@), " "@)
            && p.shared@ == yes_no(post_shared(cmd, *config))
            && p.toread@ == yes_no(post_toread(cmd, *config))
            && p.description.deep_view() == cmd->Post_description.deep_view()),
{
    let ghost c0 = cmd;
    match cmd {
        SubCommand::Post { tags, description, shared, toread } => {
            let toread = toread.unwrap_or(config.toread_new_pin);
            let shared = shared.unwrap_or(!config.private_new_pin);
            let tab = match tab {
                Some(t) => t,
                None => return Err(AlfredError::Post2PinboardFailed(owned("cannot get browser's info"))),
            };
            Ok(PinRequest {
                url: tab.url,
                title: tab.title,
                tags: user_query(&tags),
                shared: yes_no_string(shared),
                toread: yes_no_string(toread),
                description,
            })
        },
        _ => Err(AlfredError::Other),
    }
}

/// What a successful post reports.
pub open spec fn posted_message_spec(title: Seq<char>) -> Seq<char> {
    "Successfully posted: "@ + title + "\n"@
}

/// What the post reports once Pinboard answered: success names the page.
pub fn post_outcome(added: bool, title: &str) -> (r: Result<String, AlfredError>)
    ensures
        added ==> (r matches Ok(m) && m@ == posted_message_spec(title@)),
        !added ==> (r matches Err(AlfredError::Post2PinboardFailed(m)) && m@ == "Could not post to Pinboard."@),
{
    if !added {
        return Err(AlfredError::Post2PinboardFailed(owned("Could not post to Pinboard.")));
    }
    let mut v = to_chars("Successfully posted: ");
    append_chars(&mut v, &to_chars(title));
    append_chars(&mut v, &to_chars("\n"));
    Ok(from_chars(&v))
}

/// A new bookmark is shared and to be read as the `post` flags say; a flag
/// that is not given leaves the choice to the settings: to be read exactly
/// when `toread_new_pin` is set, shared exactly when `private_new_pin` is not.
pub proof fn lemma_post_flags_or_settings(x: SubCommand, c: Config)
    requires
        x is Post,
    ensures
        x->Post_toread matches Some(b) ==> post_toread(x, c) == b,
        x->Post_toread is None ==> post_toread(x, c) == c.toread_new_pin,
        x->Post_shared matches Some(b) ==> post_shared(x, c) == b,
        x->Post_shared is None ==> post_shared(x, c) == !c.private_new_pin,
        yes_no(post_toread(x, c)) == "yes"@ <==> post_toread(x, c),
        yes_no(post_shared(x, c)) == "yes"@ <==> post_shared(x, c),
{
    reveal_strlit("yes");
    reveal_strlit("no");
    assert("no"@ != "yes"@) by {
        assert("no"@.len() != "yes"@.len());
    }
}

} // verus!
