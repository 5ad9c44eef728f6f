//! The `list` sub-command: tags to complete while typing, or bookmarks.
use vstd::prelude::*;
use crate::commands::config::bool_string;
use crate::commands::config::bool_text;
use crate::item::AlfredItem;
use crate::item::ItemView;
use crate::item::ModData;
use crate::item::ModDataView;
use crate::item::ModKey;
use crate::item::new_item;
use crate::item::owned;
use crate::item::plain_item;
use crate::pins::Pin;
use crate::pins::Tag;
use crate::pins::TagFreq;
use crate::pins::freq_string;
use crate::pins::freq_text;
use crate::text::CharSet;
use crate::text::append_chars;
use crate::text::chars_eq;
use crate::text::find;
use crate::text::find_char;
use crate::text::from_chars;
use crate::text::rfind;
use crate::text::rfind_char;
use crate::text::split_whitespace;
use crate::text::split_ws;
use crate::text::sub_chars;
use crate::text::to_chars;
use crate::text::trim_matches;
use crate::text::trim_set;
use crate::workflow_config::Config;

verus! {

/// The value of the `shared` variable passed with a new bookmark.
pub open spec fn shared_text(c: Config) -> Seq<char> {
    bool_text(!c.private_new_pin)
}

/// The value of the `toread` variable passed with a new bookmark.
pub open spec fn toread_text(c: Config) -> Seq<char> {
    bool_text(c.toread_new_pin)
}

/// What holding the option key does to a new bookmark.
pub open spec fn option_subtitle(c: Config) -> Seq<char> {
    if c.private_new_pin {
        "Post the bookmark as PUBLIC."@
    } else {
        "Post the bookmark as private."@
    }
}

/// What holding the control key does to a new bookmark.
pub open spec fn control_subtitle(c: Config) -> Seq<char> {
    if c.toread_new_pin {
        "Mark the bookmark as NOT toread."@
    } else {
        "Mark the bookmark as TOREAD."@
    }
}

/// The two modifier hints every posting entry carries.
pub open spec fn posting_modifiers(c: Config) -> Seq<ModDataView> {
    seq![
        ModDataView { key: ModKey::Alt, subtitle: Some(option_subtitle(c)), arg: None, valid: None },
        ModDataView { key: ModKey::Ctrl, subtitle: Some(control_subtitle(c)), arg: None, valid: None },
    ]
}

/// The entry that offers the tag `t`: completing it appends it to `prev`.
pub open spec fn tag_item_view(t: (Seq<char>, TagFreq), prev: Seq<char>, c: Config) -> ItemView {
    let args = prev + t.0;
    ItemView {
        subtitle: Some(freq_text(t.1)),
        autocomplete: Some(args),
        modifiers: posting_modifiers(c),
        variables: seq![("tags"@, args), ("shared"@, shared_text(c)), ("toread"@, toread_text(c))],
        arg: Some(args),
        valid: true,
        icon_path: Some("tag.png"@),
        ..plain_item(t.0)
    }
}

fn option_subtitle_string(c: &Config) -> (r: String)
    ensures
        r@ == option_subtitle(*c),
{
    if c.private_new_pin {
        owned("Post the bookmark as PUBLIC.")
    } else {
        owned("Post the bookmark as private.")
    }
}

fn control_subtitle_string(c: &Config) -> (r: String)
    ensures
        r@ == control_subtitle(*c),
{
    if c.toread_new_pin {
        owned("Mark the bookmark as NOT toread.")
    } else {
        owned("Mark the bookmark as TOREAD.")
    }
}

fn posting_modifier_data(c: &Config) -> (r: Vec<ModData>)
    ensures
        r@.map_values(|m: ModData| m@) == posting_modifiers(*c),
{
    let mut r: Vec<ModData> = Vec::new();
    r.push(ModData { key: ModKey::Alt, subtitle: Some(option_subtitle_string(c)), arg: None, valid: None });
    r.push(ModData { key: ModKey::Ctrl, subtitle: Some(control_subtitle_string(c)), arg: None, valid: None });
    assert(r@.map_values(|m: ModData| m@) =~= posting_modifiers(*c));
    r
}

/// The entry that offers the tag `t` after the tags `prev` already typed.
pub fn tag_item(t: &Tag, prev: &[char], c: &Config) -> (r: AlfredItem)
    ensures
        r@ == tag_item_view(t@, prev@, *c),
{
    let mut args_chars: Vec<char> = Vec::new();
    append_chars(&mut args_chars, prev);
    let name = to_chars(t.0.as_str());
    append_chars(&mut args_chars, &name);
    let args = from_chars(&args_chars);
    let mut r = new_item(t.0.clone());
    r.subtitle = Some(freq_string(t.1));
    r.autocomplete = Some(args.clone());
    r.modifiers = posting_modifier_data(c);
    let mut vars: Vec<(String, String)> = Vec::new();
    vars.push((owned("tags"), args.clone()));
    vars.push((owned("shared"), bool_string(!c.private_new_pin)));
    vars.push((owned("toread"), bool_string(c.toread_new_pin)));
    r.variables = vars;
    r.arg = Some(args);
    r.valid = true;
    r.icon_path = Some(owned("tag.png"));
    assert(r.variables.deep_view() =~= seq![("tags"@, prev@ + t@.0), ("shared"@, shared_text(*c)), ("toread"@, toread_text(*c))]);
    r
}

/// A tag as the specifications see it: its name and how it came to be listed.
pub type TagView = (Seq<char>, TagFreq);

/// The tags of `v`, as seen by the specifications.
pub open spec fn tags_view(v: Seq<Tag>) -> Seq<TagView> {
    v.map_values(|t: Tag| t@)
}

/// The last word of the query: the tag being typed (empty when there is none).
pub open spec fn last_word(q: Seq<char>) -> Seq<char> {
    if split_ws(q).len() > 0 {
        split_ws(q).last()
    } else {
        seq![]
    }
}

/// The tags typed before the last word, up to and including the last space:
/// the prefix that completing a tag keeps.
pub open spec fn prev_tags(q: Seq<char>) -> Seq<char> {
    if split_ws(q).len() > 1 {
        match rfind_char(q, ' ') {
            Some(k) => q.take(k + 1),
            None => seq![],
        }
    } else {
        seq![]
    }
}

/// The words typed before the last one: tags the list no longer offers.
pub open spec fn typed_before(q: Seq<char>) -> Seq<Seq<char>> {
    if split_ws(q).len() == 0 {
        seq![]
    } else {
        split_ws(q).take(split_ws(q).len() - 1)
    }
}

/// First position at or after `k` of a tag named `name` in `s`.
pub open spec fn index_named_from(s: Seq<TagView>, name: Seq<char>, k: int) -> Option<int>
    decreases s.len() - k,
{
    if k < 0 || k >= s.len() {
        None
    } else if s[k].0 == name {
        Some(k)
    } else {
        index_named_from(s, name, k + 1)
    }
}

/// The tags put first: the one that matches what is typed, then the most
/// used; when none matches, the most used, after what is typed as a new tag
/// where the user asked for the query as an entry (`query_item`).
pub open spec fn top_tags(i: Seq<TagView>, last: Seq<char>, query_item: bool) -> Seq<TagView> {
    match index_named_from(i, last, 0) {
        Some(k) => if k == 0 {
            seq![i[0]]
        } else {
            seq![i[k], i[0]]
        },
        None => if query_item {
            seq![(last, TagFreq::New), i[0]]
        } else {
            seq![i[0]]
        },
    }
}

/// The remaining found tags: all but the first and the one put on top.
pub open spec fn later_tags(i: Seq<TagView>, last: Seq<char>) -> Seq<TagView> {
    match index_named_from(i, last, 0) {
        Some(k) => if k == 0 {
            i.subrange(1, i.len() as int)
        } else {
            i.subrange(1, k) + i.subrange(k + 1, i.len() as int)
        },
        None => i.subrange(1, i.len() as int),
    }
}

/// All tags in the order the list considers them.
pub open spec fn candidate_tags(
    found: Option<Seq<TagView>>,
    popular: Seq<TagView>,
    last: Seq<char>,
    query_item: bool,
) -> Seq<TagView> {
    match found {
        Some(i) => top_tags(i, last, query_item) + popular + later_tags(i, last),
        None => seq![(last, TagFreq::New)] + popular,
    }
}

/// The tags of `s` whose name is not in `typed`, in order.
pub open spec fn untyped(s: Seq<TagView>, typed: Seq<Seq<char>>) -> Seq<TagView>
    decreases s.len(),
{
    if s.len() == 0 {
        seq![]
    } else if typed.contains(s.last().0) {
        untyped(s.drop_last(), typed)
    } else {
        untyped(s.drop_last(), typed).push(s.last())
    }
}

/// The first `n` entries of `s`, or all of them where there are fewer.
pub open spec fn take_n<A>(s: Seq<A>, n: nat) -> Seq<A> {
    if s.len() <= n {
        s
    } else {
        s.take(n as int)
    }
}

/// The entry offered when nothing else is: post the page with what was typed.
pub open spec fn duplicate_item_view(q: Seq<char>, c: Config) -> ItemView {
    ItemView {
        icon_path: Some("upload.png"@),
        arg: Some(q),
        subtitle: Some("You may have entered duplicate tags!"@),
        variables: seq![("shared"@, shared_text(c)), ("toread"@, toread_text(c)), ("tags"@, q)],
        modifiers: posting_modifiers(c),
        ..plain_item("Hit Return to bookmark the page!"@)
    }
}

/// The entry that says the page is bookmarked already.
pub open spec fn present_item_view() -> ItemView {
    ItemView { icon_path: Some("bookmark-delete.png"@), ..plain_item("You already have the bookmark!"@) }
}

/// What the tag list shows for the query `q`: `found` is what the tag search
/// gave for the last word (an error, nothing, or tags most used first),
/// `popular` Pinboard's suggestions, `query_item` whether what is typed is
/// always offered, `bookmarked` whether the page is known.
pub open spec fn tag_list(
    c: Config,
    q: Seq<char>,
    found: Result<Option<Seq<TagView>>, ()>,
    popular: Seq<TagView>,
    query_item: bool,
    bookmarked: bool,
) -> Seq<ItemView> {
    let base = match found {
        Err(_) => seq![],
        Ok(r) => take_n(untyped(candidate_tags(r, popular, last_word(q), query_item), typed_before(q)), c.tags_to_show as nat).map_values(
            |t: TagView| tag_item_view(t, prev_tags(q), c),
        ),
    };
    let shown = if split_ws(q).len() > 0 && base.len() == 0 {
        seq![duplicate_item_view(q, c)]
    } else {
        base
    };
    if bookmarked {
        seq![present_item_view()] + shown
    } else {
        shown
    }
}

/// The view of a tag search result.
pub open spec fn found_view(r: Result<Option<Vec<Tag>>, ()>) -> Result<Option<Seq<TagView>>, ()> {
    match r {
        Err(e) => Err(e),
        Ok(None) => Ok(None),
        Ok(Some(v)) => Ok(Some(tags_view(v@))),
    }
}

fn index_named(tags: &Vec<Tag>, name: &[char]) -> (r: Option<usize>)
    ensures
        r matches Some(k) ==> index_named_from(tags_view(tags@), name@, 0) == Some(k as int)
            && k < tags@.len(),
        r is None ==> index_named_from(tags_view(tags@), name@, 0) is None,
{
    let mut k: usize = 0;
    while k < tags.len()
        invariant
            k <= tags@.len(),
            index_named_from(tags_view(tags@), name@, 0) == index_named_from(tags_view(tags@), name@, k as int),
        decreases tags@.len() - k,
    {
        let n = to_chars(tags[k].0.as_str());
        if chars_eq(&n, name) {
            return Some(k);
        }
        k += 1;
    }
    None
}

/// Appends copies of `src[from..to]` to `out`.
fn push_copies(out: &mut Vec<Tag>, src: &Vec<Tag>, from: usize, to: usize)
    requires
        from <= to <= src@.len(),
    ensures
        tags_view(final(out)@) == tags_view(old(out)@) + tags_view(src@).subrange(from as int, to as int),
{
    let mut j = from;
    while j < to
        invariant
            from <= j <= to <= src@.len(),
            tags_view(out@) == tags_view(old(out)@) + tags_view(src@).subrange(from as int, j as int),
        decreases to - j,
    {
        let ghost before = tags_view(out@);
        out.push(src[j].copy());
        assert(tags_view(out@) == before.push(src@[j as int]@));
        assert(tags_view(src@).subrange(from as int, j + 1) == tags_view(src@).subrange(from as int, j as int).push(src@[j as int]@));
        j += 1;
    }
}

fn candidates(found: &Option<Vec<Tag>>, popular: &Vec<Tag>, last: &[char], query_item: bool) -> (r: Vec<Tag>)
    requires
        found matches Some(i) ==> i@.len() > 0,
    ensures
        tags_view(r@) == candidate_tags(
            match found { Some(i) => Some(tags_view(i@)), None => None },
            tags_view(popular@),
            last@,
            query_item,
        ),
{
    let mut r: Vec<Tag> = Vec::new();
    match found {
        Some(i) => {
            let ghost iv = tags_view(i@);
            match index_named(i, last) {
                Some(k) => {
                    if k != 0 {
                        r.push(i[k].copy());
                    }
                    r.push(i[0].copy());
                    push_copies(&mut r, popular, 0, popular.len());
                    if k != 0 {
                        let n: usize = i.len();
                        assert(k < n);
                        push_copies(&mut r, i, 1, k);
                        push_copies(&mut r, i, k + 1, i.len());
                    } else {
                        push_copies(&mut r, i, 1, i.len());
                    }
                },
                None => {
                    if query_item {
                        let name = from_chars(last);
                        r.push(Tag(name, TagFreq::New));
                    }
                    r.push(i[0].copy());
                    push_copies(&mut r, popular, 0, popular.len());
                    push_copies(&mut r, i, 1, i.len());
                },
            }
            assert(tags_view(popular@).subrange(0, popular@.len() as int) == tags_view(popular@));
        },
        None => {
            let name = from_chars(last);
            r.push(Tag(name, TagFreq::New));
            push_copies(&mut r, popular, 0, popular.len());
            assert(tags_view(popular@).subrange(0, popular@.len() as int) == tags_view(popular@));
        },
    }
    r
}

/// Whether one of the first `upto` words is `name`.
fn typed_contains(words: &Vec<Vec<char>>, upto: usize, name: &[char]) -> (r: bool)
    requires
        upto <= words@.len(),
    ensures
        r == words@.map_values(|w: Vec<char>| w@).take(upto as int).contains(name@),
{
    let ghost ws = words@.map_values(|w: Vec<char>| w@).take(upto as int);
    let mut j: usize = 0;
    while j < upto
        invariant
            j <= upto <= words@.len(),
            ws == words@.map_values(|w: Vec<char>| w@).take(upto as int),
            forall|k: int| 0 <= k < j ==> ws[k] != name@,
        decreases upto - j,
    {
        if chars_eq(&words[j], name) {
            assert(ws[j as int] == name@);
            return true;
        }
        j += 1;
    }
    false
}

/// Keeping a further tag extends the kept list by it, or by nothing.
proof fn lemma_untyped_step(s: Seq<TagView>, typed: Seq<Seq<char>>, i: int)
    requires
        0 <= i < s.len(),
    ensures
        untyped(s.take(i + 1), typed) == if typed.contains(s[i].0) {
            untyped(s.take(i), typed)
        } else {
            untyped(s.take(i), typed).push(s[i])
        },
{
    assert(s.take(i + 1).drop_last() == s.take(i));
    assert(s.take(i + 1).last() == s[i]);
}

/// Taking `n` of a longer list grows by the new entry only while under `n`.
proof fn lemma_take_n_push<A>(s: Seq<A>, x: A, n: nat)
    ensures
        take_n(s.push(x), n) == if s.len() < n {
            take_n(s, n).push(x)
        } else {
            take_n(s, n)
        },
{
    if s.len() >= n {
        assert(s.push(x).take(n as int) =~= s.take(n as int));
        if s.len() == n {
            assert(s.take(n as int) =~= s);
        }
    }
}

/// The entry that offers to post the page with exactly what was typed.
fn duplicate_item(queries: &str, c: &Config) -> (r: AlfredItem)
    ensures
        r@ == duplicate_item_view(queries@, *c),
{
    let mut r = new_item(owned("Hit Return to bookmark the page!"));
    r.icon_path = Some(owned("upload.png"));
    r.arg = Some(owned(queries));
    r.subtitle = Some(owned("You may have entered duplicate tags!"));
    let mut vars: Vec<(String, String)> = Vec::new();
    vars.push((owned("shared"), bool_string(!c.private_new_pin)));
    vars.push((owned("toread"), bool_string(c.toread_new_pin)));
    vars.push((owned("tags"), owned(queries)));
    r.variables = vars;
    r.modifiers = posting_modifier_data(c);
    assert(r.variables.deep_view() =~= seq![("shared"@, shared_text(*c)), ("toread"@, toread_text(*c)), ("tags"@, queries@)]);
    r
}

/// The entry that says the page is bookmarked already.
pub fn present_item() -> (r: AlfredItem)
    ensures
        r@ == present_item_view(),
{
    let mut r = new_item(owned("You already have the bookmark!"));
    r.icon_path = Some(owned("bookmark-delete.png"));
    r
}

/// The words of the query (`str::split_whitespace`).
pub fn query_words(queries: &str) -> (w: Vec<String>)
    ensures
        w@.map_values(|s: String| s@) == split_ws(queries@),
{
    let q = to_chars(queries);
    let words = split_whitespace(&q);
    let mut w: Vec<String> = Vec::new();
    let mut i: usize = 0;
    while i < words.len()
        invariant
            i <= words@.len(),
            w@.map_values(|s: String| s@) == words@.map_values(|v: Vec<char>| v@).take(i as int),
        decreases words@.len() - i,
    {
        let ghost before = w@.map_values(|s: String| s@);
        w.push(from_chars(&words[i]));
        assert(w@.map_values(|s: String| s@) == before.push(words@[i as int]@));
        assert(words@.map_values(|v: Vec<char>| v@).take(i + 1) == words@.map_values(|v: Vec<char>| v@).take(i as int).push(words@[i as int]@));
        i += 1;
    }
    assert(words@.map_values(|v: Vec<char>| v@).take(words@.len() as int) == words@.map_values(|v: Vec<char>| v@));
    w
}

/// The tag entries for the query `queries`.
/// `found` is what the tag search gave for the query's last word: an error,
/// nothing, or the matching tags, most used first; `popular` holds Pinboard's
/// suggestions for the page; `query_item` asks to offer what is typed even
/// when the user has no such tag; `bookmarked` says the page is bookmarked already.
pub fn tag_items(
    config: &Config,
    queries: &str,
    found: Result<Option<Vec<Tag>>, ()>,
    popular: &Vec<Tag>,
    query_item: bool,
    bookmarked: bool,
) -> (r: Vec<AlfredItem>)
    requires
        found is Ok && split_ws(queries@).len() > 1 ==> rfind_char(queries@, ' ') is Some,
        found matches Ok(Some(i)) ==> i@.len() > 0,
        found matches Ok(None) ==> split_ws(queries@).len() > 0,
    ensures
        r@.map_values(|i: AlfredItem| i@) == tag_list(*config, queries@, found_view(found), tags_view(popular@), query_item, bookmarked),
{
    let q = to_chars(queries);
    let words = split_whitespace(&q);
    let ghost wv = words@.map_values(|w: Vec<char>| w@);
    let nwords: usize = words.len();
    let last: Vec<char> = if nwords > 0 {
        sub_chars(&words[nwords - 1], 0, words[nwords - 1].len())
    } else {
        Vec::new()
    };
    assert(last@ == last_word(queries@)) by {
        if nwords > 0 {
            assert(words@[nwords - 1]@.subrange(0, words@[nwords - 1]@.len() as int) == words@[nwords - 1]@);
        }
    }
    let prev: Vec<char> = if nwords > 1 {
        match rfind(&q, ' ') {
            Some(k) => {
                let qn: usize = q.len();
                assert(k < qn);
                sub_chars(&q, 0, k + 1)
            },
            None => Vec::new(),
        }
    } else {
        Vec::new()
    };
    assert(prev@ == prev_tags(queries@));
    let upto: usize = if nwords > 0 { nwords - 1 } else { 0 };
    assert(wv.take(upto as int) == typed_before(queries@)) by {
        if nwords == 0 {
            assert(wv.take(0) =~= Seq::<Seq<char>>::empty());
        }
    }
    let n: usize = config.tags_to_show as usize;
    let mut items: Vec<AlfredItem> = Vec::new();
    let ghost vfound = found_view(found);
    match found {
        Err(_) => {
            assert(items@.map_values(|i: AlfredItem| i@) =~= Seq::<ItemView>::empty());
        },
        Ok(f) => {
            let cands = candidates(&f, popular, &last, query_item);
            let ghost cv = tags_view(cands@);
            let ghost typed = typed_before(queries@);
            let mut i: usize = 0;
            assert(cv.take(0) =~= Seq::<TagView>::empty());
            assert(items@.map_values(|it: AlfredItem| it@) =~= take_n(untyped(cv.take(0), typed), n as nat).map_values(
                |t: TagView| tag_item_view(t, prev@, *config),
            ));
            while i < cands.len()
                invariant
                    i <= cands@.len(),
                    cv == tags_view(cands@),
                    typed == wv.take(upto as int),
                    upto <= words@.len(),
                    wv == words@.map_values(|w: Vec<char>| w@),
                    items@.len() == take_n(untyped(cv.take(i as int), typed), n as nat).len(),
                    items@.map_values(|it: AlfredItem| it@) == take_n(untyped(cv.take(i as int), typed), n as nat).map_values(
                        |t: TagView| tag_item_view(t, prev@, *config),
                    ),
                decreases cands@.len() - i,
            {
                proof {
                    lemma_untyped_step(cv, typed, i as int);
                    lemma_take_n_push(untyped(cv.take(i as int), typed), cv[i as int], n as nat);
                }
                let name = to_chars(cands[i].0.as_str());
                let is_typed = typed_contains(&words, upto, &name);
                if !is_typed && items.len() < n {
                    let ghost before = items@.map_values(|it: AlfredItem| it@);
                    let item = tag_item(&cands[i], &prev, config);
                    items.push(item);
                    assert(items@.map_values(|it: AlfredItem| it@) == before.push(item@));
                    assert(take_n(untyped(cv.take(i as int), typed), n as nat).push(cv[i as int]).map_values(
                        |t: TagView| tag_item_view(t, prev@, *config),
                    ) == take_n(untyped(cv.take(i as int), typed), n as nat).map_values(
                        |t: TagView| tag_item_view(t, prev@, *config),
                    ).push(tag_item_view(cv[i as int], prev@, *config)));
                }
                i += 1;
            }
            assert(cv.take(cands@.len() as int) == cv);
        },
    }
    if nwords > 0 && items.len() == 0 {
        items.push(duplicate_item(queries, config));
    }
    if bookmarked {
        items.insert(0, present_item());
    }
    items
}

/// The tags and the note of a query that holds a `;`: the text before the
/// first `;` and the text after it, each without surrounding tabs, spaces,
/// backslashes and newlines.
pub open spec fn note_parts(q: Seq<char>) -> (Seq<char>, Seq<char>) {
    let k = find_char(q, ';')->0;
    (trim_set(q.take(k), CharSet::NoteSeparators), trim_set(q.skip(k + 1), CharSet::NoteSeparators))
}

/// The entry that posts the page with the tags and the note typed.
pub open spec fn note_item_view(q: Seq<char>, c: Config) -> ItemView {
    let parts = note_parts(q);
    ItemView {
        icon_path: Some("upload.png"@),
        arg: Some(q),
        variables: seq![("shared"@, shared_text(c)), ("toread"@, toread_text(c)), ("tags"@, parts.0)] + if parts.1.len() > 0 {
            seq![("description"@, parts.1)]
        } else {
            seq![]
        },
        modifiers: posting_modifiers(c),
        ..plain_item("Hit Return to bookmark the page!"@)
    }
}

/// Where the query holds a `;`, the user is writing a note: the one entry
/// that posts the page with the tags before it and the note after it;
/// otherwise nothing, and the tag list applies.
pub fn note_item(config: &Config, queries: &str) -> (r: Option<AlfredItem>)
    ensures
        r is None <==> find_char(queries@, ';') is None,
        r matches Some(it) ==> it@ == note_item_view(queries@, *config),
{
    let q = to_chars(queries);
    let k = match find(&q, ';') {
        None => return None,
        Some(k) => k,
    };
    let before = sub_chars(&q, 0, k);
    let after = sub_chars(&q, k + 1, q.len());
    assert(before@ == queries@.take(k as int));
    assert(after@ == queries@.skip(k + 1));
    let tags = trim_matches(&before, CharSet::NoteSeparators);
    let note = trim_matches(&after, CharSet::NoteSeparators);
    let mut r = new_item(owned("Hit Return to bookmark the page!"));
    r.icon_path = Some(owned("upload.png"));
    r.arg = Some(owned(queries));
    let mut vars: Vec<(String, String)> = Vec::new();
    vars.push((owned("shared"), bool_string(!config.private_new_pin)));
    vars.push((owned("toread"), bool_string(config.toread_new_pin)));
    vars.push((owned("tags"), from_chars(&tags)));
    if note.len() > 0 {
        vars.push((owned("description"), from_chars(&note)));
    }
    r.variables = vars;
    r.modifiers = posting_modifier_data(config);
    assert(r.variables.deep_view() =~= note_item_view(queries@, *config).variables);
    Some(r)
}

/// The word the tag search looks for: the last word of the query.
pub fn last_query_word(queries: &str) -> (r: String)
    ensures
        r@ == last_word(queries@),
{
    let q = to_chars(queries);
    let words = split_whitespace(&q);
    if words.len() > 0 {
        let w = &words[words.len() - 1];
        assert(words@.map_values(|v: Vec<char>| v@).last() == w@);
        from_chars(w)
    } else {
        String::new()
    }
}

/// Whether to ask Pinboard for tag suggestions: as the command says, else as
/// the settings say.
pub fn wants_popular_tags(suggest: Option<bool>, config: &Config) -> (r: bool)
    ensures
        r == match suggest {
            Some(b) => b,
            None => config.suggest_tags,
        },
{
    suggest.unwrap_or(config.suggest_tags)
}

/// Whether to check that the page is bookmarked already.
pub fn checks_bookmark(no_existing_page: bool, config: &Config) -> (r: bool)
    ensures
        r == (!no_existing_page && config.page_is_bookmarked),
{
    !no_existing_page && config.page_is_bookmarked
}

/// The entry for a bookmark in the plain list: its title, its url below.
pub open spec fn bookmark_item_view(p: Pin) -> ItemView {
    ItemView { subtitle: Some(p.url@), arg: Some(p.url@), ..plain_item(p.title@) }
}

/// The entries of the plain bookmark list: the first `pins_to_show` bookmarks.
pub fn bookmark_items(config: &Config, pins: &Vec<Pin>) -> (r: Vec<AlfredItem>)
    ensures
        r@.map_values(|i: AlfredItem| i@) == take_n(pins@, config.pins_to_show as nat).map_values(
            |p: Pin| bookmark_item_view(p),
        ),
{
    let n: usize = config.pins_to_show as usize;
    let mut r: Vec<AlfredItem> = Vec::new();
    let mut i: usize = 0;
    while i < pins.len() && i < n
        invariant
            i <= pins@.len(),
            i <= n,
            n == config.pins_to_show,
            r@.map_values(|it: AlfredItem| it@) == pins@.take(i as int).map_values(|p: Pin| bookmark_item_view(p)),
        decreases pins@.len() - i,
    {
        let p = &pins[i];
        let mut it = new_item(p.title.clone());
        it.subtitle = Some(p.url.clone());
        it.arg = Some(p.url.clone());
        let ghost before = r@.map_values(|x: AlfredItem| x@);
        r.push(it);
        assert(r@.map_values(|x: AlfredItem| x@) == before.push(bookmark_item_view(pins@[i as int])));
        assert(pins@.take(i + 1) == pins@.take(i as int).push(pins@[i as int]));
        assert(pins@.take(i + 1).map_values(|p: Pin| bookmark_item_view(p)) == pins@.take(i as int).map_values(
            |p: Pin| bookmark_item_view(p),
        ).push(bookmark_item_view(pins@[i as int])));
        i += 1;
    }
    assert(take_n(pins@, n as nat) == pins@.take(i as int));
    r
}

/// Keeping tags never lengthens the list, and keeps no typed tag.
proof fn lemma_untyped_props(s: Seq<TagView>, typed: Seq<Seq<char>>)
    ensures
        untyped(s, typed).len() <= s.len(),
        forall|j: int| 0 <= j < untyped(s, typed).len() ==> !typed.contains(#[trigger] untyped(s, typed)[j].0),
        forall|j: int| 0 <= j < untyped(s, typed).len() ==> s.contains(#[trigger] untyped(s, typed)[j]),
    decreases s.len(),
{
    if s.len() > 0 {
        let dl = s.drop_last();
        lemma_untyped_props(dl, typed);
        assert forall|j: int| 0 <= j < untyped(s, typed).len() implies s.contains(#[trigger] untyped(s, typed)[j]) by {
            if j < untyped(dl, typed).len() {
                let m = choose|m: int| 0 <= m < dl.len() && dl[m] == untyped(dl, typed)[j];
                assert(s[m] == dl[m]);
            } else {
                assert(s[s.len() - 1] == s.last());
            }
        }
    }
}

/// An untyped first tag stays first.
proof fn lemma_untyped_first(s: Seq<TagView>, typed: Seq<Seq<char>>)
    requires
        s.len() > 0,
        !typed.contains(s[0].0),
    ensures
        untyped(s, typed).len() > 0,
        untyped(s, typed)[0] == s[0],
    decreases s.len(),
{
    let dl = s.drop_last();
    if s.len() > 1 {
        assert(dl[0] == s[0]);
        lemma_untyped_first(dl, typed);
    } else {
        assert(untyped(dl, typed) == Seq::<TagView>::empty());
        assert(s.last() == s[0]);
    }
}

/// A found position names the tag searched for.
proof fn lemma_index_named(s: Seq<TagView>, name: Seq<char>, k: int)
    requires
        0 <= k,
    ensures
        index_named_from(s, name, k) matches Some(j) ==> k <= j < s.len() && s[j].0 == name,
        index_named_from(s, name, k) is None ==> forall|j: int| k <= j < s.len() ==> s[j].0 != name,
    decreases s.len() - k,
{
    if k < s.len() && s[k].0 != name {
        lemma_index_named(s, name, k + 1);
    }
}

/// The tag list never holds more tag entries than the settings allow: at
/// most `tags_to_show` entries (one where that is zero), and one more that
/// says the page is bookmarked already.
pub proof fn lemma_tag_list_bounded(
    c: Config,
    q: Seq<char>,
    found: Result<Option<Seq<TagView>>, ()>,
    popular: Seq<TagView>,
    query_item: bool,
    bookmarked: bool,
)
    ensures
        tag_list(c, q, found, popular, query_item, bookmarked).len() <= (if c.tags_to_show > 0 {
            c.tags_to_show as int
        } else {
            1
        }) + (if bookmarked {
            1int
        } else {
            0
        }),
{
}

/// No tag that was typed before the last word is offered again, and
/// completing an offered tag keeps what was typed before it.
pub proof fn lemma_tag_entries(
    c: Config,
    q: Seq<char>,
    found: Result<Option<Seq<TagView>>, ()>,
    popular: Seq<TagView>,
    query_item: bool,
    bookmarked: bool,
)
    ensures
        forall|i: int|
            0 <= i < tag_list(c, q, found, popular, query_item, bookmarked).len() && (#[trigger] tag_list(
                c,
                q,
                found,
                popular,
                query_item,
                bookmarked,
            )[i]).icon_path == Some("tag.png"@) ==> {
                let it = tag_list(c, q, found, popular, query_item, bookmarked)[i];
                &&& !typed_before(q).contains(it.title)
                &&& it.autocomplete == Some(prev_tags(q) + it.title)
                &&& it.arg == Some(prev_tags(q) + it.title)
            },
{
    let l = tag_list(c, q, found, popular, query_item, bookmarked);
    let typed = typed_before(q);
    let prev = prev_tags(q);
    assert forall|i: int| 0 <= i < l.len() && (#[trigger] l[i]).icon_path == Some("tag.png"@) implies {
        &&& !typed.contains(l[i].title)
        &&& l[i].autocomplete == Some(prev + l[i].title)
        &&& l[i].arg == Some(prev + l[i].title)
    } by {
        reveal_strlit("tag.png");
        reveal_strlit("upload.png");
        reveal_strlit("bookmark-delete.png");
        assert("tag.png"@.len() == 7);
        assert("upload.png"@.len() == 10);
        assert("bookmark-delete.png"@.len() == 19);
        assert("bookmark-delete.png"@ != "tag.png"@);
        assert("upload.png"@ != "tag.png"@);
        match found {
            Err(_) => {},
            Ok(r) => {
                let u = untyped(candidate_tags(r, popular, last_word(q), query_item), typed);
                lemma_untyped_props(candidate_tags(r, popular, last_word(q), query_item), typed);
                let sel = take_n(u, c.tags_to_show as nat);
                let base = sel.map_values(|t: TagView| tag_item_view(t, prev, c));
                let shown = if split_ws(q).len() > 0 && base.len() == 0 {
                    seq![duplicate_item_view(q, c)]
                } else {
                    base
                };
                let j: int = if bookmarked { i - 1 } else { i };
                assert(l == if bookmarked { seq![present_item_view()] + shown } else { shown });
                if bookmarked && i == 0 {
                    assert(l[i] == present_item_view());
                } else {
                    assert(l[i] == shown[j]);
                    if split_ws(q).len() > 0 && base.len() == 0 {
                        assert(shown[j] == duplicate_item_view(q, c));
                    } else {
                        assert(shown[j] == tag_item_view(sel[j], prev, c));
                        assert(sel[j] == u[j]);
                    }
                }
            },
        }
    }
}

/// The word being typed is offered first (unless it was typed before
/// already, no tags are shown, or the page is known to be bookmarked): as the
/// exact tag when the user has it; as a new tag when the user has no tag
/// starting so, or asked for the query as an entry.
pub proof fn lemma_typed_word_first(
    c: Config,
    q: Seq<char>,
    found: Result<Option<Seq<TagView>>, ()>,
    popular: Seq<TagView>,
    query_item: bool,
)
    requires
        found is Ok,
        found matches Ok(Some(i)) ==> i.len() > 0,
        query_item || found matches Ok(None) || (found matches Ok(Some(i)) && index_named_from(
            i,
            last_word(q),
            0,
        ) is Some),
        c.tags_to_show > 0,
        !typed_before(q).contains(last_word(q)),
    ensures
        tag_list(c, q, found, popular, query_item, false).len() > 0,
        tag_list(c, q, found, popular, query_item, false)[0].title == last_word(q),
{
    let r = found->Ok_0;
    let cands = candidate_tags(r, popular, last_word(q), query_item);
    if let Some(i) = r {
        lemma_index_named(i, last_word(q), 0);
    }
    assert(cands[0].0 == last_word(q));
    lemma_untyped_first(cands, typed_before(q));
}

/// Without the query as an entry, when the user has no tag named as typed,
/// the most used matching tag comes first, and (where Pinboard suggests no
/// tag of that name either) what is typed is not offered at all.
pub proof fn lemma_most_used_first(
    c: Config,
    q: Seq<char>,
    i: Seq<TagView>,
    popular: Seq<TagView>,
)
    requires
        i.len() > 0,
        index_named_from(i, last_word(q), 0) is None,
        c.tags_to_show > 0,
        !typed_before(q).contains(i[0].0),
    ensures
        tag_list(c, q, Ok(Some(i)), popular, false, false).len() > 0,
        tag_list(c, q, Ok(Some(i)), popular, false, false)[0].title == i[0].0,
        (forall|j: int| 0 <= j < popular.len() ==> popular[j].0 != last_word(q)) ==> forall|k: int|
            0 <= k < tag_list(c, q, Ok(Some(i)), popular, false, false).len() && (#[trigger] tag_list(
                c,
                q,
                Ok(Some(i)),
                popular,
                false,
                false,
            )[k]).icon_path == Some("tag.png"@) ==> tag_list(c, q, Ok(Some(i)), popular, false, false)[k].title
                != last_word(q),
{
    let w = last_word(q);
    let typed = typed_before(q);
    let cands = candidate_tags(Some(i), popular, w, false);
    lemma_index_named(i, w, 0);
    lemma_untyped_first(cands, typed);
    lemma_untyped_props(cands, typed);
    let l = tag_list(c, q, Ok(Some(i)), popular, false, false);
    if forall|j: int| 0 <= j < popular.len() ==> popular[j].0 != w {
        assert forall|k: int| 0 <= k < l.len() && (#[trigger] l[k]).icon_path == Some("tag.png"@) implies l[k].title != w by {
            reveal_strlit("tag.png");
            reveal_strlit("upload.png");
            assert("tag.png"@.len() == 7);
            assert("upload.png"@.len() == 10);
            assert("upload.png"@ != "tag.png"@);
            let u = untyped(cands, typed);
            let sel = take_n(u, c.tags_to_show as nat);
            assert(sel.len() > 0);
            assert(l[k] == tag_item_view(sel[k], prev_tags(q), c));
            assert(sel[k] == u[k]);
            assert(cands.contains(u[k]));
            let m = choose|m: int| 0 <= m < cands.len() && cands[m] == u[k];
            if m == 0 {
            } else if m < 1 + popular.len() {
                assert(cands[m] == popular[m - 1]);
            } else {
                assert(cands[m] == i[m - popular.len()]);
            }
        }
    }
}

/// The run count Alfred passes while the user keeps typing: the number in
/// `apr_execution_counter`, 1 where it is unset or no number.
pub open spec fn exec_counter_spec(var: Option<Seq<char>>) -> usize {
    match var {
        None => 1,
        Some(s) => match crate::text::parse_u64_spec(s) {
            Some(v) => if v <= usize::MAX {
                v as usize
            } else {
                1
            },
            None => 1,
        },
    }
}

/// What the candidates hold beside the found and the popular tags: what is
/// typed, as a new tag, where no found tag is named so and the query is asked
/// for as an entry; nothing otherwise.
pub open spec fn typed_extra(i: Seq<TagView>, last: Seq<char>, query_item: bool) -> Seq<TagView> {
    if query_item && index_named_from(i, last, 0) is None {
        seq![(last, TagFreq::New)]
    } else {
        seq![]
    }
}

/// No found tag and no popular tag is lost or repeated: the candidates hold,
/// up to order, exactly the found tags, the popular tags, and what is typed
/// where it is offered as a new tag.
pub proof fn lemma_candidates_keep_all_tags(i: Seq<TagView>, p: Seq<TagView>, last: Seq<char>, query_item: bool)
    requires
        i.len() > 0,
    ensures
        candidate_tags(Some(i), p, last, query_item).to_multiset() == (i + p + typed_extra(
            i,
            last,
            query_item,
        )).to_multiset(),
        candidate_tags(Some(i), p, last, query_item).len() == i.len() + p.len() + typed_extra(
            i,
            last,
            query_item,
        ).len(),
{
    broadcast use vstd::seq_lib::lemma_multiset_commutative;
    broadcast use vstd::multiset::group_multiset_axioms;
    lemma_index_named(i, last, 0);
    let c = candidate_tags(Some(i), p, last, query_item);
    let t = top_tags(i, last, query_item);
    let l = later_tags(i, last);
    let e = typed_extra(i, last, query_item);
    assert(c == t + p + l);
    let head = seq![i[0]];
    assert(i == head + i.subrange(1, i.len() as int));
    match index_named_from(i, last, 0) {
        Some(k) => {
            if k == 0 {
                assert(t == head);
            } else {
                let a = i.subrange(1, k);
                let mid = seq![i[k]];
                let b = i.subrange(k + 1, i.len() as int);
                assert(i.subrange(1, i.len() as int) == a + mid + b);
                assert(t == mid + head);
                assert(l == a + b);
                assert((a + mid + b).to_multiset() == (a + b).to_multiset().add(mid.to_multiset()));
            }
            assert(i + p + e == i + p);
        },
        None => {
            if query_item {
                assert(t == e + head);
            } else {
                assert(t == head);
                assert(i + p + e == i + p);
            }
        },
    }
    assert(c.to_multiset() =~= (i + p + e).to_multiset());
}

/// Where the found tag at `j` stands among the candidates when `popular`
/// holds `p_len` tags: behind the popular tags, one place further where it
/// was found before the tag named as typed.
pub open spec fn found_place(i: Seq<TagView>, p_len: nat, last: Seq<char>, query_item: bool, j: int) -> int {
    p_len + typed_extra(i, last, query_item).len() + j + if index_named_from(i, last, 0) matches Some(k) && j < k {
        1int
    } else {
        0int
    }
}

/// How many candidates stand before the popular tags: the tag named as typed
/// (or what is typed, as a new tag, where it is offered) and the most used tag.
pub open spec fn top_count(i: Seq<TagView>, last: Seq<char>, query_item: bool) -> int {
    if index_named_from(i, last, 0) matches Some(k) && k > 0 {
        2
    } else {
        1 + typed_extra(i, last, query_item).len() as int
    }
}

/// The candidates start with the tag named as typed where there is one, else
/// with what is typed where it is offered, else with the most used tag; the
/// most used tag comes next where it is not first, and then the popular tags
/// in their order.
pub proof fn lemma_candidates_head(i: Seq<TagView>, p: Seq<TagView>, last: Seq<char>, query_item: bool)
    requires
        i.len() > 0,
    ensures
        index_named_from(i, last, 0) matches Some(k) ==> candidate_tags(Some(i), p, last, query_item)[0] == i[k],
        index_named_from(i, last, 0) is None && query_item ==> candidate_tags(Some(i), p, last, query_item)[0] == (
        last,
        TagFreq::New,
        ),
        index_named_from(i, last, 0) is None && !query_item ==> candidate_tags(Some(i), p, last, query_item)[0]
            == i[0],
        candidate_tags(Some(i), p, last, query_item)[top_count(i, last, query_item) - 1] == i[0],
        forall|m: int|
            0 <= m < p.len() ==> top_count(i, last, query_item) + m < candidate_tags(Some(i), p, last, query_item).len()
                && candidate_tags(Some(i), p, last, query_item)[top_count(i, last, query_item) + m] == #[trigger] p[m],
{
    lemma_index_named(i, last, 0);
}

/// The found tags other than the first and the one named as typed come last,
/// behind the popular tags, in the order found: the tag named as typed is
/// the only one taken out of that run.
pub proof fn lemma_candidates_found_order(i: Seq<TagView>, p: Seq<TagView>, last: Seq<char>, query_item: bool)
    requires
        i.len() > 0,
    ensures
        forall|j: int|
            1 <= j < i.len() && index_named_from(i, last, 0) != Some(j) ==> {
                &&& p.len() + typed_extra(i, last, query_item).len() < found_place(i, p.len(), last, query_item, j) + 1
                &&& found_place(i, p.len(), last, query_item, j) < candidate_tags(Some(i), p, last, query_item).len()
                &&& candidate_tags(Some(i), p, last, query_item)[found_place(i, p.len(), last, query_item, j)] == #[trigger] i[j]
            },
{
    lemma_index_named(i, last, 0);
}

/// The run count from the text of `apr_execution_counter` (`usize` parsing).
pub fn exec_counter(var: Option<String>) -> (r: usize)
    ensures
        r == exec_counter_spec(var.deep_view()),
{
    match var {
        None => 1,
        Some(s) => {
            let cs = to_chars(s.as_str());
            match crate::text::parse_u64(&cs) {
                Some(v) => if v <= usize::MAX as u64 {
                    v as usize
                } else {
                    1
                },
                None => 1,
            }
        },
    }
}

} // verus!
