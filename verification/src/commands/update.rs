//! The `update` sub-command: refreshing the local cache when it is stale.
use vstd::prelude::*;
use crate::error::AlfredError;
use crate::item::owned;
use crate::workflow_config::Config;

verus! {

/// What the cache update has learnt so far.
#[derive(Clone, Copy, Debug)]
pub enum UpdateEvent {
    /// Whether the server has newer data than the cache; `None` when asking failed.
    Compared(Option<bool>),
    /// Whether the cache was downloaded anew.
    Refreshed(bool),
    /// Whether the new update time was saved.
    Saved(bool),
}

/// What the cache update does next.
#[derive(Debug)]
pub enum UpdateAction {
    /// Download the cache anew.
    Refresh,
    /// Record the current time as the update time and save the settings.
    Save,
    /// Stop and report.
    Done(Result<String, AlfredError>),
}

/// The step after `event` of a cache update, forced or not:
/// a stale or forced cache is refreshed and the time saved; each failure
/// stops with the step it happened in.
pub open spec fn update_step_spec(force: bool, event: UpdateEvent) -> (Option<bool>, Seq<char>) {
    match event {
        UpdateEvent::Compared(None) => (Some(false), "comparing timestamp with server failed"@),
        UpdateEvent::Compared(Some(stale)) => if stale || force {
            (None, "refresh"@)
        } else {
            (Some(true), "Cache is already up-to-date!"@)
        },
        UpdateEvent::Refreshed(false) => (Some(false), "update_cache failed"@),
        UpdateEvent::Refreshed(true) => (None, "save"@),
        UpdateEvent::Saved(false) => (Some(false), "saving update timestamp failed"@),
        UpdateEvent::Saved(true) => (Some(true), "Updated cache files!"@),
    }
}

/// Whether `a` is the action that [`update_step_spec`] describes.
pub open spec fn is_update_step(a: UpdateAction, force: bool, event: UpdateEvent) -> bool {
    let (done, text) = update_step_spec(force, event);
    match a {
        UpdateAction::Refresh => done is None && text == "refresh"@,
        UpdateAction::Save => done is None && text == "save"@,
        UpdateAction::Done(Ok(m)) => done == Some(true) && m@ == text,
        UpdateAction::Done(Err(AlfredError::CacheUpdateFailed(m))) => done == Some(false) && m@ == text,
        UpdateAction::Done(Err(_)) => false,
    }
}

/// The step after `event` of a cache update.
pub fn update_step(force: bool, event: UpdateEvent) -> (a: UpdateAction)
    ensures
        is_update_step(a, force, event),
{
    match event {
        UpdateEvent::Compared(None) => UpdateAction::Done(
            Err(AlfredError::CacheUpdateFailed(owned("comparing timestamp with server failed"))),
        ),
        UpdateEvent::Compared(Some(stale)) => if stale || force {
            UpdateAction::Refresh
        } else {
            UpdateAction::Done(Ok(owned("Cache is already up-to-date!")))
        },
        UpdateEvent::Refreshed(false) => UpdateAction::Done(
            Err(AlfredError::CacheUpdateFailed(owned("update_cache failed"))),
        ),
        UpdateEvent::Refreshed(true) => UpdateAction::Save,
        UpdateEvent::Saved(false) => UpdateAction::Done(
            Err(AlfredError::CacheUpdateFailed(owned("saving update timestamp failed"))),
        ),
        UpdateEvent::Saved(true) => UpdateAction::Done(Ok(owned("Updated cache files!"))),
    }
}

/// A forced update refreshes the cache whenever the server could be asked;
/// an update that is not forced refreshes it exactly when it is stale.
pub proof fn lemma_force_refreshes(stale: bool)
    ensures
        update_step_spec(true, UpdateEvent::Compared(Some(stale))).0 is None,
        update_step_spec(false, UpdateEvent::Compared(Some(stale))).0 is None <==> stale,
{
}

/// A change made to the bookmarks on Pinboard.
#[derive(Clone, Copy, Debug)]
pub enum Change {
    /// A bookmark was added.
    Posted,
    /// A bookmark or a tag was removed.
    Deleted,
    /// A tag was renamed.
    Renamed,
}

/// Whether the cache is updated after `change`, and if so whether the update
/// is forced: only where the settings ask for automatic updates, and a renamed
/// tag forces it.
pub open spec fn refresh_after_spec(change: Change, auto_update_cache: bool) -> Option<bool> {
    if auto_update_cache {
        Some(change is Renamed)
    } else {
        None
    }
}

/// The cache update that follows a successful `change`: `None` for none,
/// `Some(force)` for one.
pub fn refresh_after(change: Change, config: &Config) -> (r: Option<bool>)
    ensures
        r == refresh_after_spec(change, config.auto_update_cache),
{
    if config.auto_update_cache {
        match change {
            Change::Renamed => Some(true),
            _ => Some(false),
        }
    } else {
        None
    }
}

} // verus!
