use vstd::prelude::*;
use crate::text::{is_trimmed, lemma_trim_is_trimmed, trim, trim_seq};

verus! {

/// The rest of `s` after a leading `#`, or `None` when `s` does not begin
/// with `#` (as `str::strip_prefix('#')` answers).
pub open spec fn strip_hash_text(s: Seq<char>) -> Option<Seq<char>> {
    if s.len() > 0 && s[0] == '#' {
        Some(s.drop_first())
    } else {
        None
    }
}

/// The tags that a group edit writes: the new tags, trimmed and without their
/// leading `#`; where the trimmed new tags do not begin with `#`, the group's
/// current tags instead; trimmed in either case.
pub open spec fn group_tags_text(new_tags: Seq<char>, current_tags: Seq<char>) -> Seq<char> {
    trim_seq(
        match strip_hash_text(trim_seq(new_tags)) {
            Some(rest) => rest,
            None => current_tags,
        },
    )
}

/// The rest of `s` after a leading `#`, if it begins with one.
pub fn strip_hash(s: &str) -> (rest: Option<&str>)
    ensures
        rest matches Some(r) ==> strip_hash_text(s@) == Some(r@),
        rest is None ==> strip_hash_text(s@) is None,
{
    let len = s.unicode_len();
    if len > 0 && s.get_char(0) == '#' {
        let r = s.substring_char(1, len);
        assert(r@ =~= s@.drop_first());
        Some(r)
    } else {
        None
    }
}

/// The text fields that an edit of a group of tasks writes to each task of the
/// group. The rate stays text here: turning it into a number is left to the caller.
pub struct GroupTextUpdate {
    pub name: String,
    pub tags: String,
    pub project: String,
    pub rate_text: String,
}

/// The text fields that a group edit writes, from what the user typed and the
/// group's current tags: name, project and rate are trimmed; the tags are
/// those of `group_tags_text`.
pub fn group_text_update(
    new_name: &str,
    new_tags: &str,
    current_tags: &str,
    new_project: &str,
    new_rate: &str,
) -> (update: GroupTextUpdate)
    ensures
        update.name@ == trim_seq(new_name@),
        update.tags@ == group_tags_text(new_tags@, current_tags@),
        update.project@ == trim_seq(new_project@),
        update.rate_text@ == trim_seq(new_rate@),
        is_trimmed(update.name@),
        is_trimmed(update.tags@),
        is_trimmed(update.project@),
{
    let tags_source = match strip_hash(trim(new_tags)) {
        Some(rest) => rest,
        None => current_tags,
    };
    let update = GroupTextUpdate {
        name: String::from_str(trim(new_name)),
        tags: String::from_str(trim(tags_source)),
        project: String::from_str(trim(new_project)),
        rate_text: String::from_str(trim(new_rate)),
    };
    proof {
        lemma_trim_is_trimmed(new_name@);
        lemma_trim_is_trimmed(tags_source@);
        lemma_trim_is_trimmed(new_project@);
    }
    update
}

/// Where the trimmed new tags begin with `#`, the tags written are the rest
/// after that `#`, trimmed, whatever the current tags are (so `#` alone
/// clears the tags); the current tags, trimmed, are written only where the
/// trimmed new tags do not begin with `#`.
pub proof fn law_group_tags_choice(new_tags: Seq<char>, current_tags: Seq<char>)
    ensures
        trim_seq(new_tags).len() > 0 && trim_seq(new_tags)[0] == '#' ==> group_tags_text(
            new_tags,
            current_tags,
        ) == trim_seq(trim_seq(new_tags).drop_first()),
        !(trim_seq(new_tags).len() > 0 && trim_seq(new_tags)[0] == '#') ==> group_tags_text(
            new_tags,
            current_tags,
        ) == trim_seq(current_tags),
{
}

} // verus!
