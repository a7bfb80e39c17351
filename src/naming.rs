use vstd::prelude::*;

verus! {

/// What `slug::slugify` makes of a text.
pub uninterp spec fn slugified(s: Seq<char>) -> Seq<char>;

/// What `Path::file_stem` gives for a path: the file name without its extension.
pub uninterp spec fn file_stem_of(p: Seq<char>) -> Option<Seq<char>>;

/// Relies on `slug::slugify`: lower case ASCII letters and digits, with each run
/// of other characters turned into one hyphen and no hyphen at either end. The
/// result depends on the text alone.
#[verifier::external_body]
fn slugify_text(s: &str) -> (r: String)
    ensures
        r@ == slugified(s@),
{
    slug::slugify(s)
}

/// Relies on `std::path::Path::file_stem`: the last component of the path
/// without its final extension, if the path names a file. The stem of a `&str`
/// path is valid UTF-8, so it converts back to text.
#[verifier::external_body]
fn path_file_stem(p: &str) -> (r: Option<String>)
    ensures
        r matches Some(s) ==> file_stem_of(p@) == Some(s@),
        r is None ==> file_stem_of(p@) is None,
{
    match std::path::Path::new(p).file_stem() {
        Some(stem) => stem.to_str().map(str::to_string),
        None => None,
    }
}

/// The slug of a post: the explicit one if given, else the slugified file stem
/// of its path, else the slugified title.
pub open spec fn resolved_slug(explicit: Option<Seq<char>>, path: Seq<char>, title: Seq<char>) -> Seq<char> {
    match explicit {
        Some(s) => s,
        None => match file_stem_of(path) {
            Some(stem) => slugified(stem),
            None => slugified(title),
        },
    }
}

/// The view of an optional text.
pub open spec fn opt_view(o: Option<String>) -> Option<Seq<char>> {
    match o {
        Some(s) => Some(s@),
        None => None,
    }
}

/// Chooses the slug of a post: an explicit slug always wins; without one the
/// file stem of `path` is slugified; without a stem, the title is.
pub fn resolve_slug(explicit: &Option<String>, path: &str, title: &str) -> (r: String)
    ensures
        r@ == resolved_slug(opt_view(*explicit), path@, title@),
        explicit matches Some(s) ==> r@ == s@,
{
    match explicit {
        Some(s) => s.clone(),
        None => match path_file_stem(path) {
            Some(stem) => slugify_text(stem.as_str()),
            None => slugify_text(title),
        },
    }
}

} // verus!
