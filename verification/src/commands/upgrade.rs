//! The `self` sub-command: checking for and downloading a newer workflow.
use vstd::prelude::*;
use crate::item::AlfredItem;
use crate::item::ItemView;
use crate::item::new_item;
use crate::item::owned;
use crate::item::plain_item;
use crate::text::append_chars;
use crate::text::from_chars;
use crate::text::to_chars;

verus! {

/// What the `self` command does.
#[derive(Clone, Copy, PartialEq, Eq, Debug)]
pub enum UpgradeMode {
    /// Both flags: refused.
    Conflict,
    /// Check for a newer version.
    Check,
    /// Download the newest version.
    Download,
    /// Neither flag: nothing.
    Idle,
}

/// What the `self` command does for its two flags.
pub fn upgrade_mode(check: bool, download: bool) -> (m: UpgradeMode)
    ensures
        m == if check && download {
            UpgradeMode::Conflict
        } else if check {
            UpgradeMode::Check
        } else if download {
            UpgradeMode::Download
        } else {
            UpgradeMode::Idle
        },
{
    if check && download {
        UpgradeMode::Conflict
    } else if check {
        UpgradeMode::Check
    } else if download {
        UpgradeMode::Download
    } else {
        UpgradeMode::Idle
    }
}

/// The entry that says the workflow is the newest version.
pub open spec fn latest_item_view() -> ItemView {
    ItemView {
        icon_path: Some("auto_update.png"@),
        variables: seq![("workflow_update_ready"@, "0"@)],
        arg: Some("update"@),
        ..plain_item("You have the latest version of workflow!"@)
    }
}

/// The entry that says the workflow is the newest version.
pub fn latest_item() -> (r: AlfredItem)
    ensures
        r@ == latest_item_view(),
{
    let mut r = new_item(owned("You have the latest version of workflow!"));
    r.icon_path = Some(owned("auto_update.png"));
    let mut vars: Vec<(String, String)> = Vec::new();
    vars.push((owned("workflow_update_ready"), owned("0")));
    r.variables = vars;
    r.arg = Some(owned("update"));
    assert(r.variables.deep_view() =~= seq![("workflow_update_ready"@, "0"@)]);
    r
}

/// The entry that says the check for a newer version failed.
pub fn upgrade_info_error_item() -> (r: AlfredItem)
    ensures
        r@ == plain_item("Error in getting upgrade info!"@),
{
    new_item(owned("Error in getting upgrade info!"))
}

/// What a download reports, and whether it failed: `downloaded` is the
/// saved file's name (none where it is not text), or nothing on failure.
pub fn download_report(downloaded: Option<Option<String>>) -> (r: (String, bool))
    ensures
        downloaded matches Some(Some(p)) ==> r.0@ == "Download Successful: "@ + p@ && !r.1,
        downloaded matches Some(None) ==> r.0@ == "Download OK, issue with its file name!"@ && !r.1,
        downloaded is None ==> r.0@ == "Error: Couldn't download the latest workflow."@ && r.1,
{
    match downloaded {
        Some(Some(p)) => {
            let mut v = to_chars("Download Successful: ");
            append_chars(&mut v, &to_chars(p.as_str()));
            (from_chars(&v), false)
        },
        Some(None) => (owned("Download OK, issue with its file name!"), false),
        None => (owned("Error: Couldn't download the latest workflow."), true),
    }
}

} // verus!
