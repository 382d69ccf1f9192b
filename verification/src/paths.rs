//! Paths as text, resolved by the standard library's rules for the platform
//! that the library is built for.

use vstd::prelude::*;
use crate::error::{Error, ErrorView, text_result};

verus! {

/// Whether `std::path::Path::is_relative` holds of the path with this text.
pub uninterp spec fn path_is_relative(path: Seq<char>) -> bool;

/// The text of the path that `std::path::Path::join` makes of the two paths
/// with these texts.
pub uninterp spec fn path_join(base: Seq<char>, path: Seq<char>) -> Seq<char>;

/// Calls `std::path::Path::is_relative`, which answers from the path's text
/// alone whether it is relative. The contract only gives that answer its name.
#[verifier::external_body]
pub(crate) fn is_relative(path: &str) -> (r: bool)
    ensures
        r == path_is_relative(path@),
{
    std::path::Path::new(path).is_relative()
}

/// Calls `std::path::Path::join`, which adjoins `path` to `base` from the two
/// texts alone. The contract only gives the joined path its name. Both
/// arguments are UTF-8 and the joined path is made of them, so its text is
/// taken without loss.
#[verifier::external_body]
pub(crate) fn join(base: &str, path: &str) -> (r: String)
    ensures
        r@ == path_join(base@, path@),
{
    std::path::Path::new(base).join(path).to_string_lossy().into_owned()
}

/// Where `path` leads, given whether it is relative and the current
/// directory if that is known.
pub open spec fn resolved(path: Seq<char>, relative: bool, current_dir: Option<Seq<char>>) -> Result<
    Seq<char>,
    ErrorView,
> {
    if !relative {
        Ok(path)
    } else {
        match current_dir {
            Some(dir) => Ok(path_join(dir, path)),
            None => Err(ErrorView::NoCurrentDir { path }),
        }
    }
}

/// Resolves `path`: one that is not relative stays as it is; a relative one
/// is joined to the current directory, and fails where that is not known.
pub fn resolve(path: String, relative: bool, current_dir: Option<&str>) -> (r: Result<
    String,
    Error,
>)
    ensures
        text_result(r) == resolved(
            path@,
            relative,
            match current_dir {
                Some(dir) => Some(dir@),
                None => None,
            },
        ),
{
    if !relative {
        Ok(path)
    } else {
        match current_dir {
            Some(dir) => Ok(join(dir, path.as_str())),
            None => Err(Error::NoCurrentDir { path }),
        }
    }
}

} // verus!
