//! The `rename` sub-command: renaming a tag.
use vstd::prelude::*;

verus! {

/// Whether `tags` names exactly two non-empty tags, the old and the new name.
pub open spec fn rename_tags_ok(tags: Seq<String>) -> bool {
    tags.len() == 2 && tags[0]@.len() > 0 && tags[1]@.len() > 0
}

/// Whether `tags` names exactly two non-empty tags; where not, the user is
/// asked for two tags.
pub fn rename_args_valid(tags: &Vec<String>) -> (r: bool)
    ensures
        r == rename_tags_ok(tags@),
{
    if tags.len() != 2 {
        return false;
    }
    !tags[0].as_str().is_empty() && !tags[1].as_str().is_empty()
}

} // verus!
