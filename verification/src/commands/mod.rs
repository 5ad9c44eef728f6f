//! What each sub-command decides and shows.
use vstd::prelude::*;
use crate::error::AlfredError;
use crate::error::error_message;
use crate::item::AlfredItem;
use crate::item::ItemView;
use crate::item::new_item;
use crate::item::owned;
use crate::item::plain_item;
use crate::text::append_chars;
use crate::text::find;
use crate::text::find_char;
use crate::text::from_chars;
use crate::text::sub_chars;
use crate::text::to_chars;

pub use crate::cli::Opt;
pub use crate::cli::SubCommand;

pub mod browser_info;
pub mod config;
pub mod delete;
pub mod list;
pub mod post;
pub mod rename;
pub mod search;
pub mod update;
pub mod upgrade;

verus! {

/// The Pinboard user name in an API token `user:secret`: the text before
/// the first `:`; none where the token has no `:`.
pub open spec fn username_of(token: Seq<char>) -> Option<Seq<char>> {
    match find_char(token, ':') {
        Some(k) => Some(token.take(k)),
        None => None,
    }
}

/// The message for a token without a user name.
pub open spec fn bad_token_message() -> Seq<char> {
    "Bad Auth. Token!"@
}

/// The variables passed to Alfred with a result list: the user name first,
/// then `extra`; an error where the token names no user.
pub fn output_variables(auth_token: &str, extra: Vec<(String, String)>) -> (r: Result<
    Vec<(String, String)>,
    String,
>)
    ensures
        username_of(auth_token@) is None <==> r is Err,
        r matches Err(m) ==> m@ == bad_token_message(),
        r matches Ok(v) ==> v.deep_view() == seq![("username"@, username_of(auth_token@)->0)]
            + extra.deep_view(),
{
    let t = to_chars(auth_token);
    let idx = match find(&t, ':') {
        Some(k) => k,
        None => return Err(owned("Bad Auth. Token!")),
    };
    let user = sub_chars(&t, 0, idx);
    let mut vars: Vec<(String, String)> = Vec::new();
    vars.push((owned("username"), from_chars(&user)));
    let ghost first = vars.deep_view();
    let mut i: usize = 0;
    while i < extra.len()
        invariant
            i <= extra@.len(),
            first == seq![("username"@, auth_token@.take(idx as int))],
            vars.deep_view() == first + extra.deep_view().take(i as int),
        decreases extra@.len() - i,
    {
        let ghost before = vars.deep_view();
        vars.push((extra[i].0.clone(), extra[i].1.clone()));
        assert(vars.deep_view() =~= before.push((extra@[i as int].0@, extra@[i as int].1@)));
        assert(extra.deep_view().take(i + 1) =~= extra.deep_view().take(i as int).push(
            (extra@[i as int].0@, extra@[i as int].1@),
        ));
        i += 1;
    }
    assert(extra.deep_view().take(extra@.len() as int) =~= extra.deep_view());
    Ok(vars)
}

/// The entry that announces a newer version of the workflow.
pub open spec fn upgrade_item_view(old: Seq<char>, new: Seq<char>) -> ItemView {
    ItemView {
        subtitle: Some("Click to download & upgrade "@ + old + " \u{27f6} "@ + new),
        icon_path: Some("auto_update.png"@),
        variables: seq![("workflow_update_ready"@, "1"@)],
        arg: Some("update"@),
        ..plain_item("New Version Is Available for Rusty Pin Workflow! \u{1f389}"@)
    }
}

/// The entry that announces the version `new` to replace `old`.
pub fn upgrade_item(old: &str, new: &str) -> (r: AlfredItem)
    ensures
        r@ == upgrade_item_view(old@, new@),
{
    let mut sub = to_chars("Click to download & upgrade ");
    append_chars(&mut sub, &to_chars(old));
    append_chars(&mut sub, &to_chars(" \u{27f6} "));
    append_chars(&mut sub, &to_chars(new));
    let mut r = new_item(owned("New Version Is Available for Rusty Pin Workflow! \u{1f389}"));
    r.subtitle = Some(from_chars(&sub));
    r.icon_path = Some(owned("auto_update.png"));
    let mut vars: Vec<(String, String)> = Vec::new();
    vars.push((owned("workflow_update_ready"), owned("1")));
    r.variables = vars;
    r.arg = Some(owned("update"));
    assert(r.variables.deep_view() =~= seq![("workflow_update_ready"@, "1"@)]);
    r
}

/// The report of a failure: `Error: ` and the error's message.
pub fn error_report(e: &AlfredError) -> (r: String)
    ensures
        r@ == "Error: "@ + error_message(*e),
{
    let mut v = to_chars("Error: ");
    let m = e.message();
    append_chars(&mut v, &to_chars(m.as_str()));
    from_chars(&v)
}

} // verus!
