//! Composition of the destination path of a classified file.
use vstd::prelude::*;
use vstd::string::StringExecFns;
use vstd::string::StrSliceExecFns;
use crate::bucket::TemporalBucket;
use crate::media::MediaCategory;
use crate::media::category_label;

verus! {

/// `base` followed by the segment `seg`, with one `/` between them unless
/// `base` is empty or already ends in one.
pub open spec fn join(base: Seq<char>, seg: Seq<char>) -> Seq<char> {
    if base.len() == 0 || base.last() == '/' {
        base + seg
    } else {
        base + seq!['/'] + seg
    }
}

/// The directory that receives the files of one category, owner and bucket.
pub open spec fn destination_dir(
    root: Seq<char>,
    category: MediaCategory,
    owner: Seq<char>,
    year: Seq<char>,
    month: Seq<char>,
) -> Seq<char> {
    join(join(join(join(root, category_label(category)), owner), year), month)
}

/// The full destination path of a file.
pub open spec fn destination_path(
    root: Seq<char>,
    category: MediaCategory,
    owner: Seq<char>,
    year: Seq<char>,
    month: Seq<char>,
    file_name: Seq<char>,
) -> Seq<char> {
    join(destination_dir(root, category, owner, year, month), file_name)
}

/// Appends the segment `seg` to the path `base`.
pub fn join_segment(base: &String, seg: &str) -> (r: String)
    ensures
        r@ == join(base@, seg@),
{
    let n = base.as_str().unicode_len();
    let r = if n == 0 || base.as_str().get_char(n - 1) == '/' {
        base.clone().concat(seg)
    } else {
        let with_sep = base.clone().concat("/");
        proof {
            reveal_strlit("/");
        }
        with_sep.concat(seg)
    };
    assert(r@ =~= join(base@, seg@));
    r
}

/// The directory `root/<category>/<owner>/<year>/<month>`.
pub fn resolve_dir(
    root: &str,
    category: MediaCategory,
    owner: &str,
    bucket: &TemporalBucket,
) -> (r: String)
    ensures
        r@ == destination_dir(root@, category, owner@, bucket.year@, bucket.month@),
{
    let label = category.label();
    let p = join_segment(&String::from_str(root), label.as_str());
    let p = join_segment(&p, owner);
    let p = join_segment(&p, bucket.year.as_str());
    join_segment(&p, bucket.month.as_str())
}

/// The path `root/<category>/<owner>/<year>/<month>/<file_name>`.
pub fn resolve(
    root: &str,
    category: MediaCategory,
    owner: &str,
    bucket: &TemporalBucket,
    file_name: &str,
) -> (r: String)
    ensures
        r@ == destination_path(root@, category, owner@, bucket.year@, bucket.month@, file_name@),
{
    let dir = resolve_dir(root, category, owner, bucket);
    join_segment(&dir, file_name)
}

} // verus!
