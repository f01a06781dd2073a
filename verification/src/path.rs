//! Filesystem paths as the library sees them.
//!
//! A path is carried as `std::path::PathBuf`. The only thing the library asks
//! of a path is its text, when it has one.

use std::path::PathBuf;
use vstd::prelude::*;

verus! {

/// `std::path::PathBuf`, carried through without looking inside.
#[verifier::external_type_specification]
#[verifier::external_body]
pub struct ExPathBuf(std::path::PathBuf);

/// The text of a path: `Some` exactly when the path is valid Unicode, and then
/// the characters it is written with.
pub uninterp spec fn path_text(p: PathBuf) -> Option<Seq<char>>;

/// `Path::to_str`: yields the path as a string slice if it is valid Unicode,
/// and nothing otherwise. The contract says that the slice is the path's text.
#[verifier::external_body]
pub(crate) fn path_to_str(p: &PathBuf) -> (r: Option<&str>)
    ensures
        r is Some <==> path_text(*p) is Some,
        r matches Some(s) ==> path_text(*p) == Some(s@),
{
    p.to_str()
}

/// `PathBuf::clone`: the copy is the same path.
pub assume_specification[ <PathBuf as Clone>::clone ](p: &PathBuf) -> (r: PathBuf)
    ensures
        r == *p,
;

} // verus!
