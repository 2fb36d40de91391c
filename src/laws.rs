//! Properties that hold across the library's functions, proved over the
//! spec functions that their contracts use.
use vstd::prelude::*;
use crate::bucket::bucket_spec;
use crate::bucket::month_name;
use crate::bucket::month_names;
use crate::engine::Action;
use crate::engine::Outcome;
use crate::engine::RunConfig;
use crate::engine::Target;
use crate::engine::action_after_check;
use crate::engine::first_action;
use crate::engine::mutates;
use crate::engine::plan_destination;
use crate::engine::plan_directory;
use crate::media::IneligibleReason;
use crate::media::MediaCategory;
use crate::media::category_of_extension;
use crate::media::category_of_media_type;
use crate::media::entry_category;
use crate::media::extension_of;
use crate::media::is_prefix;
use crate::media::last_dot;

verus! {

proof fn lemma_no_dot(s: Seq<char>)
    requires
        forall|k: int| 0 <= k < s.len() ==> s[k] != '.',
    ensures
        last_dot(s) == -1,
    decreases s.len(),
{
    if s.len() > 0 {
        lemma_no_dot(s.drop_last());
    }
}

/// Raw `arw` and `heic` files are images whatever the extension table
/// holds for them, media types that begin with `image` or `video` give
/// those categories, and any other media type is unsupported.
pub proof fn lemma_classification_rules(media_type: Option<Seq<char>>, m: Seq<char>)
    ensures
        category_of_extension("arw"@, media_type) == Ok::<MediaCategory, IneligibleReason>(
            MediaCategory::Image,
        ),
        category_of_extension("heic"@, media_type) == Ok::<MediaCategory, IneligibleReason>(
            MediaCategory::Image,
        ),
        is_prefix("image"@, m) ==> category_of_media_type(m) == Ok::<
            MediaCategory,
            IneligibleReason,
        >(MediaCategory::Image),
        !is_prefix("image"@, m) && is_prefix("video"@, m) ==> category_of_media_type(m) == Ok::<
            MediaCategory,
            IneligibleReason,
        >(MediaCategory::Video),
        !is_prefix("image"@, m) && !is_prefix("video"@, m) ==> category_of_media_type(m) == Err::<
            MediaCategory,
            IneligibleReason,
        >(IneligibleReason::UnsupportedType),
{
}

/// A file name without a dot has no extension, and such a file is never
/// relocated.
pub proof fn lemma_extensionless_is_ineligible(name: Seq<char>)
    requires
        forall|k: int| 0 <= k < name.len() ==> name[k] != '.',
    ensures
        extension_of(name) is None,
        entry_category(false, Some(name)) == Err::<MediaCategory, IneligibleReason>(
            IneligibleReason::NoExtension,
        ),
{
    lemma_no_dot(name);
}

/// Bucketing is a function of the timestamp alone, and its month is always
/// one of the twelve lowercase month names.
pub proof fn lemma_bucket_deterministic(secs1: int, secs2: int)
    requires
        secs1 == secs2,
    ensures
        bucket_spec(secs1) == bucket_spec(secs2),
        bucket_spec(secs1) matches Some(b) ==> month_names().contains(b.1),
{
    if let Some(b) = bucket_spec(secs1) {
        let m = crate::bucket::utc_year_month(secs1).unwrap().1;
        let k = if 1 <= m <= 12 {
            m
        } else {
            12
        };
        assert(b.1 == month_name(k));
    }
}

/// In a dry run the first step for every target is to report its plan, so
/// nothing on disk changes; and the plan of a target is the same on every
/// run with the same settings.
pub proof fn lemma_dry_run_is_pure(c1: RunConfig, c2: RunConfig, t1: Target, t2: Target)
    requires
        c1.dry_run,
        c1 == c2,
        t1 == t2,
    ensures
        first_action(c1.dry_run) == Action::Finish(Outcome::Planned),
        !mutates(first_action(c1.dry_run)),
        plan_directory(c1, t1) == plan_directory(c2, t2),
        plan_destination(c1, t1) == plan_destination(c2, t2),
{
}

/// A destination that is taken ends the entry as a collision: the file is
/// never renamed onto it.
pub proof fn lemma_taken_destination_is_kept()
    ensures
        action_after_check(true) == Action::Finish(Outcome::Collision),
        !mutates(action_after_check(true)),
        action_after_check(false) == Action::Move,
{
}

} // verus!
