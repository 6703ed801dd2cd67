//! File system paths, carried as `std::path::PathBuf`.
//!
//! The results of `PathBuf::from`, `Path::join`, `Path::is_absolute`,
//! `Path::to_str` and `Path::display` are named: each is a function of its
//! arguments on the platform the tool is built for.
use vstd::prelude::*;

verus! {

#[verifier::external_type_specification]
#[verifier::external_body]
pub struct ExPathBuf(std::path::PathBuf);

/// The path that `PathBuf::from` makes of a text.
pub uninterp spec fn path_of(text: Seq<char>) -> std::path::PathBuf;

/// `PathBuf::from(String)`: the path whose text is `text`; the result is named
/// by `path_of`.
#[verifier::external_body]
pub(crate) fn path_from_text(text: String) -> (p: std::path::PathBuf)
    ensures
        p == path_of(text@),
{
    std::path::PathBuf::from(text)
}

/// `PathBuf::clone`: an equal path.
#[verifier::external_body]
pub(crate) fn copy_path(p: &std::path::PathBuf) -> (r: std::path::PathBuf)
    ensures
        r == *p,
{
    p.clone()
}

/// The path that `Path::join` makes of `base` and `name`.
pub uninterp spec fn joined_path(base: std::path::PathBuf, name: std::path::PathBuf) -> std::path::PathBuf;

/// Whether `Path::is_absolute` holds of `p`.
pub uninterp spec fn absolute_path(p: std::path::PathBuf) -> bool;

/// The UTF-8 text of `p` that `Path::to_str` gives, if it has one.
pub uninterp spec fn path_text(p: std::path::PathBuf) -> Option<Seq<char>>;

/// How `Path::display` writes `p`.
pub uninterp spec fn shown_path(p: std::path::PathBuf) -> Seq<char>;

/// The view of an optional text.
pub open spec fn opt_string(o: Option<String>) -> Option<Seq<char>> {
    match o {
        Some(s) => Some(s@),
        None => None,
    }
}

/// `Path::join`: its result is named by `joined_path`.
#[verifier::external_body]
pub(crate) fn join(base: &std::path::PathBuf, name: &std::path::PathBuf) -> (r: std::path::PathBuf)
    ensures
        r == joined_path(*base, *name),
{
    base.join(name)
}

/// `Path::is_absolute`: its result is named by `absolute_path`.
#[verifier::external_body]
pub(crate) fn is_absolute(p: &std::path::PathBuf) -> (r: bool)
    ensures
        r == absolute_path(*p),
{
    p.is_absolute()
}

/// `Path::to_str`, as an owned `String`: its result is named by `path_text`.
#[verifier::external_body]
pub(crate) fn text(p: &std::path::PathBuf) -> (r: Option<String>)
    ensures
        opt_string(r) == path_text(*p),
{
    p.to_str().map(|s| s.to_owned())
}

/// `Path::display`, written out: its result is named by `shown_path`.
#[verifier::external_body]
pub(crate) fn shown(p: &std::path::PathBuf) -> (r: String)
    ensures
        r@ == shown_path(*p),
{
    format!("{}", p.display())
}

} // verus!
