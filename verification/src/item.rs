//! The items the workflow shows in Alfred's result list, as plain data.
use vstd::prelude::*;

verus! {

/// Modifier keys that Alfred lets an item react to.
#[derive(Clone, Copy, PartialEq, Eq, Debug)]
pub enum ModKey {
    /// The command key.
    Cmd,
    /// The option (alt) key.
    Alt,
    /// The control key.
    Ctrl,
    /// The shift key.
    Shift,
    /// The fn key.
    FnKey,
}

/// What an item shows or passes on while a modifier key is held.
#[derive(Clone, Debug)]
pub struct ModData {
    pub key: ModKey,
    pub subtitle: Option<String>,
    pub arg: Option<String>,
    pub valid: Option<bool>,
}

/// The mathematical content of a [`ModData`].
pub struct ModDataView {
    pub key: ModKey,
    pub subtitle: Option<Seq<char>>,
    pub arg: Option<Seq<char>>,
    pub valid: Option<bool>,
}

impl View for ModData {
    type V = ModDataView;

    open spec fn view(&self) -> ModDataView {
        ModDataView {
            key: self.key,
            subtitle: self.subtitle.deep_view(),
            arg: self.arg.deep_view(),
            valid: self.valid,
        }
    }
}

/// One entry of Alfred's result list.
#[derive(Clone, Debug)]
pub struct AlfredItem {
    pub title: String,
    pub subtitle: Option<String>,
    pub icon_path: Option<String>,
    pub arg: Option<String>,
    pub valid: bool,
    pub autocomplete: Option<String>,
    pub text_copy: Option<String>,
    pub text_large_type: Option<String>,
    pub quicklook_url: Option<String>,
    pub modifiers: Vec<ModData>,
    pub variables: Vec<(String, String)>,
}

/// The mathematical content of an [`AlfredItem`].
pub struct ItemView {
    pub title: Seq<char>,
    pub subtitle: Option<Seq<char>>,
    pub icon_path: Option<Seq<char>>,
    pub arg: Option<Seq<char>>,
    pub valid: bool,
    pub autocomplete: Option<Seq<char>>,
    pub text_copy: Option<Seq<char>>,
    pub text_large_type: Option<Seq<char>>,
    pub quicklook_url: Option<Seq<char>>,
    pub modifiers: Seq<ModDataView>,
    pub variables: Seq<(Seq<char>, Seq<char>)>,
}

impl View for AlfredItem {
    type V = ItemView;

    open spec fn view(&self) -> ItemView {
        ItemView {
            title: self.title@,
            subtitle: self.subtitle.deep_view(),
            icon_path: self.icon_path.deep_view(),
            arg: self.arg.deep_view(),
            valid: self.valid,
            autocomplete: self.autocomplete.deep_view(),
            text_copy: self.text_copy.deep_view(),
            text_large_type: self.text_large_type.deep_view(),
            quicklook_url: self.quicklook_url.deep_view(),
            modifiers: self.modifiers@.map_values(|m: ModData| m@),
            variables: self.variables.deep_view(),
        }
    }
}

/// An item with only a title: valid, and nothing else set.
pub open spec fn plain_item(title: Seq<char>) -> ItemView {
    ItemView {
        title,
        subtitle: None,
        icon_path: None,
        arg: None,
        valid: true,
        autocomplete: None,
        text_copy: None,
        text_large_type: None,
        quicklook_url: None,
        modifiers: seq![],
        variables: seq![],
    }
}

/// A `String` holding the characters of `s`.
pub fn owned(s: &str) -> (r: String)
    ensures
        r@ == s@,
{
    s.to_owned()
}

/// An item with only a title (`alfred::ItemBuilder::new`).
pub fn new_item(title: String) -> (r: AlfredItem)
    ensures
        r@ == plain_item(title@),
{
    let r = AlfredItem {
        title,
        subtitle: None,
        icon_path: None,
        arg: None,
        valid: true,
        autocomplete: None,
        text_copy: None,
        text_large_type: None,
        quicklook_url: None,
        modifiers: Vec::new(),
        variables: Vec::new(),
    };
    assert(r.modifiers@.map_values(|m: ModData| m@) =~= Seq::<ModDataView>::empty());
    assert(r.variables.deep_view() =~= Seq::<(Seq<char>, Seq<char>)>::empty());
    r
}

/// The error item: title `Error`, the message as subtitle, the error icon.
pub open spec fn error_item_view(msg: Seq<char>) -> ItemView {
    ItemView {
        subtitle: Some(msg),
        icon_path: Some("erroricon.icns"@),
        ..plain_item("Error"@)
    }
}

/// The item that reports an error to the user.
pub fn alfred_error_item(msg: String) -> (r: AlfredItem)
    ensures
        r@ == error_item_view(msg@),
{
    let mut r = new_item(owned("Error"));
    r.subtitle = Some(msg);
    r.icon_path = Some(owned("erroricon.icns"));
    r
}

} // verus!
