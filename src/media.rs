//! Classification of a file, by the extension of its name, as an image or a
//! video.
use vstd::prelude::*;
use vstd::string::StringExecFns;
use vstd::string::StrSliceExecFns;

verus! {

/// The coarse kind of a media file.
#[derive(Clone, Copy, Debug, PartialEq, Eq, Structural)]
pub enum MediaCategory {
    Image,
    Video,
}

/// Why an entry is not a candidate for relocation.
#[derive(Clone, Copy, Debug, PartialEq, Eq, Structural)]
pub enum IneligibleReason {
    IsDirectory,
    NoExtension,
    UnresolvableName,
    UnknownType,
    UnsupportedType,
}

/// The directory name under which a category is archived.
pub open spec fn category_label(c: MediaCategory) -> Seq<char> {
    match c {
        MediaCategory::Image => "pictures"@,
        MediaCategory::Video => "videos"@,
    }
}

impl MediaCategory {
    /// The directory name of this category: `pictures` or `videos`.
    pub fn label(&self) -> (r: String)
        ensures
            r@ == category_label(*self),
    {
        match self {
            MediaCategory::Image => String::from_str("pictures"),
            MediaCategory::Video => String::from_str("videos"),
        }
    }
}

/// Index of the last `'.'` in `s`, or -1 where there is none.
pub open spec fn last_dot(s: Seq<char>) -> int
    decreases s.len(),
{
    if s.len() == 0 {
        -1
    } else if s.last() == '.' {
        s.len() - 1
    } else {
        last_dot(s.drop_last())
    }
}

/// The extension of a file name: what follows its last dot, where that dot
/// is not the name's first character.
pub open spec fn extension_of(name: Seq<char>) -> Option<Seq<char>> {
    let i = last_dot(name);
    if i <= 0 {
        None
    } else {
        Some(name.subrange(i + 1, name.len() as int))
    }
}

proof fn lemma_last_dot_bounds(s: Seq<char>)
    ensures
        -1 <= last_dot(s) < s.len(),
        last_dot(s) >= 0 ==> s[last_dot(s)] == '.',
        forall|k: int| last_dot(s) < k < s.len() ==> s[k] != '.',
    decreases s.len(),
{
    if s.len() > 0 && s.last() != '.' {
        let t = s.drop_last();
        lemma_last_dot_bounds(t);
        assert forall|k: int| last_dot(s) < k < s.len() implies s[k] != '.' by {
            if k < s.len() - 1 {
                assert(s[k] == t[k]);
            }
        }
    }
}

/// The extension of `name`, as `std::path::Path::extension` finds it.
pub fn extension(name: &str) -> (r: Option<String>)
    ensures
        r matches Some(e) ==> extension_of(name@) == Some(e@),
        r is None ==> extension_of(name@) is None,
{
    let n = name.unicode_len();
    let mut j: usize = n;
    assert(name@.subrange(0, n as int) =~= name@);
    while j > 0
        invariant
            j <= n,
            n == name@.len(),
            forall|k: int| j <= k < n ==> name@[k] != '.',
            last_dot(name@) == last_dot(name@.subrange(0, j as int)),
        ensures
            j <= n,
            forall|k: int| j <= k < n ==> name@[k] != '.',
            last_dot(name@) == last_dot(name@.subrange(0, j as int)),
            j == 0 || name@[j - 1] == '.',
        decreases j,
    {
        if name.get_char(j - 1) == '.' {
            break;
        }
        assert(name@.subrange(0, j - 1) =~= name@.subrange(0, j as int).drop_last());
        j = j - 1;
    }
    proof {
        lemma_last_dot_bounds(name@);
    }
    if j <= 1 {
        assert(last_dot(name@) <= 0) by {
            if j == 1 {
                assert(name@.subrange(0, 1).last() == name@[0]);
            } else {
                assert(name@.subrange(0, 0).len() == 0);
            }
        }
        None
    } else {
        let ghost pre = name@.subrange(0, j as int);
        assert(pre.len() > 0 && pre.last() == '.');
        assert(last_dot(pre) == j - 1);
        Some(String::from_str(name.substring_char(j, n)))
    }
}

/// The characters of an optional string.
pub open spec fn text_of(o: Option<String>) -> Option<Seq<char>> {
    match o {
        Some(s) => Some(s@),
        None => None,
    }
}

/// The characters of an optional string slice.
pub open spec fn str_text_of(o: Option<&str>) -> Option<Seq<char>> {
    match o {
        Some(s) => Some(s@),
        None => None,
    }
}

/// Whether `p` is a prefix of `s`.
pub open spec fn is_prefix(p: Seq<char>, s: Seq<char>) -> bool {
    p.len() <= s.len() && s.subrange(0, p.len() as int) == p
}

/// Whether the characters of `p` begin `s`.
pub fn starts_with(s: &str, p: &str) -> (r: bool)
    ensures
        r == is_prefix(p@, s@),
{
    let n = s.unicode_len();
    let m = p.unicode_len();
    if m > n {
        return false;
    }
    let mut i: usize = 0;
    while i < m
        invariant
            i <= m <= n,
            n == s@.len(),
            m == p@.len(),
            forall|k: int| 0 <= k < i ==> s@[k] == p@[k],
        decreases m - i,
    {
        if s.get_char(i) != p.get_char(i) {
            assert(s@.subrange(0, m as int)[i as int] != p@[i as int]);
            return false;
        }
        i = i + 1;
    }
    assert(s@.subrange(0, m as int) =~= p@);
    true
}

/// The category that a media type such as `image/jpeg` stands for.
pub open spec fn category_of_media_type(m: Seq<char>) -> Result<MediaCategory, IneligibleReason> {
    if is_prefix("image"@, m) {
        Ok(MediaCategory::Image)
    } else if is_prefix("video"@, m) {
        Ok(MediaCategory::Video)
    } else {
        Err(IneligibleReason::UnsupportedType)
    }
}

/// The category of a lowercase extension, given the media type that the
/// extension table holds for it. Raw `arw` and `heic` files are images
/// whatever the table says.
pub open spec fn category_of_extension(
    ext: Seq<char>,
    media_type: Option<Seq<char>>,
) -> Result<MediaCategory, IneligibleReason> {
    if ext == "arw"@ || ext == "heic"@ {
        Ok(MediaCategory::Image)
    } else {
        match media_type {
            None => Err(IneligibleReason::UnknownType),
            Some(m) => category_of_media_type(m),
        }
    }
}

/// The category of a media type string.
pub fn classify_media_type(media_type: &str) -> (r: Result<MediaCategory, IneligibleReason>)
    ensures
        r == category_of_media_type(media_type@),
{
    if starts_with(media_type, "image") {
        Ok(MediaCategory::Image)
    } else if starts_with(media_type, "video") {
        Ok(MediaCategory::Video)
    } else {
        Err(IneligibleReason::UnsupportedType)
    }
}

/// Whether a lowercase extension is one of the raw formats that are images
/// without a lookup.
pub fn is_raw_image_extension(ext: &String) -> (r: bool)
    ensures
        r == (ext@ == "arw"@ || ext@ == "heic"@),
{
    *ext == String::from_str("arw") || *ext == String::from_str("heic")
}

/// The category of a lowercase extension, given what the extension table
/// returned for it.
pub fn classify_looked_up(ext: &String, media_type: Option<String>) -> (r: Result<
    MediaCategory,
    IneligibleReason,
>)
    ensures
        r == category_of_extension(ext@, text_of(media_type)),
{
    if is_raw_image_extension(ext) {
        Ok(MediaCategory::Image)
    } else {
        match media_type {
            None => Err(IneligibleReason::UnknownType),
            Some(m) => classify_media_type(m.as_str()),
        }
    }
}

/// What `str::to_lowercase` returns for a string.
pub uninterp spec fn lowercase_of(s: Seq<char>) -> Seq<char>;

/// Relies on `str::to_lowercase`: the lowercase form depends on the
/// characters alone, and the empty string stays empty.
#[verifier::external_body]
fn lowercase(s: &str) -> (r: String)
    ensures
        r@ == lowercase_of(s@),
        s@.len() == 0 ==> r@.len() == 0,
{
    s.to_lowercase()
}

/// The first media type that `mime_guess`'s table lists for an extension.
pub uninterp spec fn first_media_type(ext: Seq<char>) -> Option<Seq<char>>;

/// Relies on `mime_guess::from_ext` and `MimeGuess::first_raw`: the first
/// media type known for the extension; none for the empty extension.
#[verifier::external_body]
fn lookup_media_type(ext: &str) -> (r: Option<String>)
    ensures
        text_of(r) == first_media_type(ext@),
        ext@.len() == 0 ==> r is None,
{
    mime_guess::from_ext(ext).first_raw().map(|m| m.to_string())
}

/// The category of a lowercase extension, looked up in the extension table.
pub fn classify_extension(ext: &String) -> (r: Result<MediaCategory, IneligibleReason>)
    ensures
        r == category_of_extension(ext@, first_media_type(ext@)),
{
    let media_type = lookup_media_type(ext.as_str());
    classify_looked_up(ext, media_type)
}

/// The category of an entry, or why it is not one to relocate. `name` is
/// the entry's file name, where that is text.
pub open spec fn entry_category(is_dir: bool, name: Option<Seq<char>>) -> Result<
    MediaCategory,
    IneligibleReason,
> {
    if is_dir {
        Err(IneligibleReason::IsDirectory)
    } else {
        match name {
            None => Err(IneligibleReason::UnresolvableName),
            Some(n) => match extension_of(n) {
                None => Err(IneligibleReason::NoExtension),
                Some(e) => {
                    let lower = lowercase_of(e);
                    category_of_extension(lower, first_media_type(lower))
                },
            },
        }
    }
}

/// Classifies an entry by its kind and its file name (`None` where the name
/// is not text).
pub fn classify(is_dir: bool, name: Option<&str>) -> (r: Result<MediaCategory, IneligibleReason>)
    ensures
        r == entry_category(is_dir, str_text_of(name)),
{
    if is_dir {
        return Err(IneligibleReason::IsDirectory);
    }
    match name {
        None => Err(IneligibleReason::UnresolvableName),
        Some(n) => match extension(n) {
            None => Err(IneligibleReason::NoExtension),
            Some(e) => {
                let lower = lowercase(e.as_str());
                classify_extension(&lower)
            },
        },
    }
}

} // verus!
