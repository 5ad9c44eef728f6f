//! The `delete` sub-command: removing a tag, a bookmark, or offering the
//! active browser tab for removal.
use vstd::prelude::*;
use crate::cli::SubCommand;
use crate::commands::browser_info::BrowserActiveTabInfo;
use crate::error::AlfredError;
use crate::item::AlfredItem;
use crate::item::ItemView;
use crate::item::new_item;
use crate::item::owned;
use crate::item::plain_item;

verus! {

/// What a `delete` command removes.
#[derive(Clone, Debug)]
pub enum DeletePlan {
    /// The tag of this name.
    Tag(String),
    /// The bookmark of this url.
    Url(String),
    /// Nothing yet: the active browser tab is offered for removal.
    BrowserTab,
}

/// What the `delete` command `x` removes: a given tag first, else a given url,
/// else the active tab is offered.
pub open spec fn delete_plan_spec(x: SubCommand) -> DeletePlan {
    match x->Delete_tag {
        Some(t) => DeletePlan::Tag(t),
        None => match x->Delete_url {
            Some(u) => DeletePlan::Url(u),
            None => DeletePlan::BrowserTab,
        },
    }
}

/// What the `delete` command `cmd` removes.
pub fn delete_plan(cmd: SubCommand) -> (r: DeletePlan)
    requires
        cmd is Delete,
    ensures
        r == delete_plan_spec(cmd),
{
    match cmd {
        SubCommand::Delete { url, tag } => {
            if let Some(tag) = tag {
                return DeletePlan::Tag(tag);
            }
            match url {
                Some(u) => DeletePlan::Url(u),
                None => DeletePlan::BrowserTab,
            }
        },
        _ => DeletePlan::BrowserTab,
    }
}

/// What a removal reports once Pinboard answered: the
/// success message, or the failure naming what could not be removed; an
/// offered tab reports nothing.
pub fn delete_outcome(plan: &DeletePlan, removed: bool) -> (r: Result<String, AlfredError>)
    ensures
        plan is Tag && removed ==> (r matches Ok(m) && m@ == "Successfully deleted tag."@),
        plan is Tag && !removed ==> (r matches Err(AlfredError::DeleteFailed(m)) && m@ == "couldn't delete tag"@),
        plan is Url && removed ==> (r matches Ok(m) && m@ == "Successfully deleted bookmark."@),
        plan is Url && !removed ==> (r matches Err(AlfredError::DeleteFailed(m)) && m@ == "couldn't delete url"@),
        plan is BrowserTab ==> (r matches Ok(m) && m@.len() == 0),
{
    match plan {
        DeletePlan::Tag(_) => if removed {
            Ok(owned("Successfully deleted tag."))
        } else {
            Err(AlfredError::DeleteFailed(owned("couldn't delete tag")))
        },
        DeletePlan::Url(_) => if removed {
            Ok(owned("Successfully deleted bookmark."))
        } else {
            Err(AlfredError::DeleteFailed(owned("couldn't delete url")))
        },
        DeletePlan::BrowserTab => Ok(String::new()),
    }
}

/// The entry that offers the tab `t` for removal.
pub open spec fn delete_tab_item_view(t: BrowserActiveTabInfo) -> ItemView {
    ItemView {
        subtitle: Some(t.url@),
        arg: Some(t.url@),
        quicklook_url: Some(t.url@),
        text_large_type: Some(t.title@),
        text_copy: Some(t.url@),
        icon_path: Some("bookmark-delete.png"@),
        ..plain_item(t.title@)
    }
}

/// The entry shown when the browser names no tab.
pub open spec fn no_tab_item_view() -> ItemView {
    ItemView {
        subtitle: Some("Error"@),
        icon_path: Some("erroricon.icns"@),
        ..plain_item("Couldn't get browser's info!"@)
    }
}

/// The entry that offers the active tab for removal, or says there is none.
pub fn delete_tab_item(tab: Option<BrowserActiveTabInfo>) -> (r: AlfredItem)
    ensures
        tab matches Some(t) ==> r@ == delete_tab_item_view(t),
        tab is None ==> r@ == no_tab_item_view(),
{
    match tab {
        Some(t) => {
            let mut r = new_item(t.title.clone());
            r.subtitle = Some(t.url.clone());
            r.arg = Some(t.url.clone());
            r.quicklook_url = Some(t.url.clone());
            r.text_large_type = Some(t.title);
            r.text_copy = Some(t.url.clone());
            r.icon_path = Some(owned("bookmark-delete.png"));
            r
        },
        None => {
            let mut r = new_item(owned("Couldn't get browser's info!"));
            r.subtitle = Some(owned("Error"));
            r.icon_path = Some(owned("erroricon.icns"));
            r
        },
    }
}

/// A given tag is always what is removed, whatever url is given too; a url
/// is removed only where no tag is given; with neither, nothing is removed
/// and the active tab is offered.
pub proof fn lemma_delete_target(x: SubCommand)
    requires
        x is Delete,
    ensures
        x->Delete_tag matches Some(t) ==> delete_plan_spec(x) == DeletePlan::Tag(t),
        x->Delete_tag is None ==> (x->Delete_url matches Some(u) ==> delete_plan_spec(x) == DeletePlan::Url(u)),
        x->Delete_tag is None && x->Delete_url is None ==> delete_plan_spec(x) is BrowserTab,
        delete_plan_spec(x) is BrowserTab <==> (x->Delete_tag is None && x->Delete_url is None),
{
}

} // verus!
