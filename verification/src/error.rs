//! What can go wrong, with the package or the path that it went wrong for.

use vstd::prelude::*;
use vstd::string::StringExecFns;

verus! {

/// A failure of one of the library's operations.
#[derive(Clone, Debug, PartialEq, Eq)]
pub enum Error {
    /// No metadata record has been loaded.
    NoMetadata,
    /// The metadata query failed; `message` is what the query reported.
    MetadataQuery { message: String },
    /// No package is named `name`, but `similar` is the name of one that
    /// differs from it only in case and punctuation.
    SimilarPackage { name: String, similar: String },
    /// `path` is relative and the current directory is not known.
    NoCurrentDir { path: String },
    /// The dependency listing printed for `package` is not UTF-8.
    MalformedListing { package: String },
}

/// An `Error` with its strings as texts.
pub enum ErrorView {
    NoMetadata,
    MetadataQuery { message: Seq<char> },
    SimilarPackage { name: Seq<char>, similar: Seq<char> },
    NoCurrentDir { path: Seq<char> },
    MalformedListing { package: Seq<char> },
}

impl View for Error {
    type V = ErrorView;

    open spec fn view(&self) -> ErrorView {
        match *self {
            Error::NoMetadata => ErrorView::NoMetadata,
            Error::MetadataQuery { message } => ErrorView::MetadataQuery { message: message@ },
            Error::SimilarPackage { name, similar } => ErrorView::SimilarPackage {
                name: name@,
                similar: similar@,
            },
            Error::NoCurrentDir { path } => ErrorView::NoCurrentDir { path: path@ },
            Error::MalformedListing { package } => ErrorView::MalformedListing {
                package: package@,
            },
        }
    }
}

impl ErrorView {
    /// The failure in words.
    pub open spec fn message(self) -> Seq<char> {
        match self {
            ErrorView::NoMetadata => "no metadata has been loaded"@,
            ErrorView::MetadataQuery { message } => message,
            ErrorView::SimilarPackage { name, similar } => "Found similar package for "@ + name
                + " ~ "@ + similar,
            ErrorView::NoCurrentDir { path } => "cannot resolve "@ + path
                + " without a current directory"@,
            ErrorView::MalformedListing { package } => "the dependency listing of "@ + package
                + " is not UTF-8"@,
        }
    }
}

impl Error {
    /// The failure in words.
    pub fn message(&self) -> (r: String)
        ensures
            r@ == self@.message(),
    {
        match self {
            Error::NoMetadata => String::from_str("no metadata has been loaded"),
            Error::MetadataQuery { message } => message.clone(),
            Error::SimilarPackage { name, similar } => {
                let mut r = String::from_str("Found similar package for ");
                r.append(name.as_str());
                r.append(" ~ ");
                r.append(similar.as_str());
                r
            },
            Error::NoCurrentDir { path } => {
                let mut r = String::from_str("cannot resolve ");
                r.append(path.as_str());
                r.append(" without a current directory");
                r
            },
            Error::MalformedListing { package } => {
                let mut r = String::from_str("the dependency listing of ");
                r.append(package.as_str());
                r.append(" is not UTF-8");
                r
            },
        }
    }
}

/// The text of a result, or the view of its error.
pub open spec fn text_result(r: Result<String, Error>) -> Result<Seq<char>, ErrorView> {
    match r {
        Ok(text) => Ok(text@),
        Err(e) => Err(e@),
    }
}

} // verus!
