//! File system paths as text: joining components, the user's home directory,
//! and the lexical questions about a path that the library asks of std.
use vstd::prelude::*;
use vstd::string::*;
use std::path::Path;
use crate::text::{chars_of, push_char};

verus! {

/// `base` extended by the relative component `segment`, as `PathBuf::push` does
/// on Unix: a `/` goes between them unless `base` is empty or already ends in one.
pub open spec fn join_path(base: Seq<char>, segment: Seq<char>) -> Seq<char> {
    if base.len() == 0 || base.last() == '/' {
        base + segment
    } else {
        base + seq!['/'] + segment
    }
}

/// `base` extended by the relative component `segment`.
pub fn join(base: &str, segment: &str) -> (r: String)
    ensures
        r@ == join_path(base@, segment@),
{
    let v = chars_of(base);
    let mut r = base.to_owned();
    if v.len() > 0 && v[v.len() - 1] != '/' {
        push_char(&mut r, '/');
    }
    r.append(segment);
    r
}

/// Calls `dirs::home_dir` and renders the path as text. The result comes from
/// the environment (`$HOME`, or the password database), so nothing is claimed
/// about it.
#[verifier::external_body]
pub fn home_dir_string() -> (r: Option<String>) {
    dirs::home_dir().map(|p| p.to_string_lossy().into_owned())
}

/// What `Path::ancestors` yields for `path`: the path itself, then each parent
/// in turn. Lexical: a function of the text alone.
pub uninterp spec fn path_ancestors_of(path: Seq<char>) -> Seq<Seq<char>>;

/// What `Path::extension` gives for `path`. Lexical: a function of the text alone.
pub uninterp spec fn path_extension_of(path: Seq<char>) -> Option<Seq<char>>;

/// Calls `std::path::Path::ancestors` and collects the ancestors as text.
/// Trusted: the texts, in order, are `path_ancestors_of(path@)`.
#[verifier::external_body]
pub fn path_ancestors(path: &str) -> (r: Vec<String>)
    ensures
        r@.len() == path_ancestors_of(path@).len(),
        forall|i: int| 0 <= i < r@.len() ==> #[trigger] r@[i]@ == path_ancestors_of(path@)[i],
{
    Path::new(path).ancestors().map(|a| a.to_string_lossy().into_owned()).collect()
}

/// Calls `std::path::Path::extension` and renders it as text.
/// Trusted: the result is `path_extension_of(path@)`.
#[verifier::external_body]
pub fn path_extension(path: &str) -> (r: Option<String>)
    ensures
        match r {
            Some(e) => path_extension_of(path@) == Some(e@),
            None => path_extension_of(path@) is None,
        },
{
    Path::new(path).extension().map(|e| e.to_string_lossy().into_owned())
}

} // verus!
