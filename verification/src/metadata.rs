//! The metadata record of a workspace, as far as this library reads it, and the
//! cache that holds it once a query has succeeded.

use vstd::prelude::*;
use crate::error::{Error, ErrorView};
use crate::text::{opt_text, texts};

verus! {

/// The kind of a dependency edge.
#[derive(Clone, Copy, Debug, PartialEq, Eq, Structural)]
pub enum DependencyKind {
    /// Used by the package itself.
    Normal,
    /// Used by tests, examples and benchmarks only.
    Development,
    /// Used by build scripts only.
    Build,
    /// Any other kind; in a query it stands for all kinds.
    Unknown,
}

impl DependencyKind {
    /// The kinds of edge to follow, as cargo names them.
    pub open spec fn edges_name(self) -> Seq<char> {
        match self {
            DependencyKind::Normal => "normal"@,
            DependencyKind::Development => "dev"@,
            DependencyKind::Build => "build"@,
            DependencyKind::Unknown => "all"@,
        }
    }

    /// The kinds of edge to follow, as cargo names them.
    pub fn edges(&self) -> (r: &'static str)
        ensures
            r@ == self.edges_name(),
    {
        match self {
            DependencyKind::Normal => "normal",
            DependencyKind::Development => "dev",
            DependencyKind::Build => "build",
            DependencyKind::Unknown => "all",
        }
    }
}

/// One dependency of a package.
#[derive(Clone, Debug, PartialEq, Eq)]
pub struct Dependency {
    pub name: String,
    pub kind: DependencyKind,
}

/// The field values of a `Dependency`.
pub struct DependencyView {
    pub name: Seq<char>,
    pub kind: DependencyKind,
}

impl View for Dependency {
    type V = DependencyView;

    open spec fn view(&self) -> DependencyView {
        DependencyView { name: self.name@, kind: self.kind }
    }
}

/// One package of the metadata record.
#[derive(Clone, Debug, PartialEq, Eq)]
pub struct Package {
    pub name: String,
    pub version: String,
    pub manifest_path: String,
    pub dependencies: Vec<Dependency>,
}

/// The field values of a `Package`.
pub struct PackageView {
    pub name: Seq<char>,
    pub version: Seq<char>,
    pub manifest_path: Seq<char>,
    pub dependencies: Seq<DependencyView>,
}

impl View for Package {
    type V = PackageView;

    open spec fn view(&self) -> PackageView {
        PackageView {
            name: self.name@,
            version: self.version@,
            manifest_path: self.manifest_path@,
            dependencies: Seq::new(
                self.dependencies@.len(),
                |i: int| self.dependencies@[i]@,
            ),
        }
    }
}

impl Dependency {
    /// Whether two dependencies hold the same values.
    pub fn same(&self, other: &Dependency) -> (r: bool)
        ensures
            r == (self@ == other@),
    {
        self.name == other.name && self.kind == other.kind
    }
}

impl Package {
    /// Whether two packages hold the same values in every field.
    pub fn same(&self, other: &Package) -> (r: bool)
        ensures
            r == (self@ == other@),
    {
        if !(self.name == other.name && self.version == other.version && self.manifest_path
            == other.manifest_path) {
            return false;
        }
        if self.dependencies.len() != other.dependencies.len() {
            assert(self@.dependencies.len() != other@.dependencies.len());
            return false;
        }
        let mut i: usize = 0;
        while i < self.dependencies.len()
            invariant
                self.dependencies.len() == other.dependencies.len(),
                i <= self.dependencies.len(),
                forall|j: int| 0 <= j < i ==> self@.dependencies[j] == other@.dependencies[j],
            decreases self.dependencies.len() - i,
        {
            if !self.dependencies[i].same(&other.dependencies[i]) {
                assert(self@.dependencies[i as int] != other@.dependencies[i as int]);
                return false;
            }
            i += 1;
        }
        assert(self@.dependencies =~= other@.dependencies);
        true
    }
}

/// The metadata record: every package of the graph and the build directory.
#[derive(Clone, Debug, PartialEq, Eq)]
pub struct Metadata {
    pub packages: Vec<Package>,
    pub target_directory: String,
}

/// The field values of a `Metadata`.
pub struct MetadataView {
    pub packages: Seq<PackageView>,
    pub target_directory: Seq<char>,
}

/// The views of a list of packages, in order.
pub open spec fn package_views(v: Seq<Package>) -> Seq<PackageView> {
    Seq::new(v.len(), |i: int| v[i]@)
}

impl View for Metadata {
    type V = MetadataView;

    open spec fn view(&self) -> MetadataView {
        MetadataView {
            packages: package_views(self.packages@),
            target_directory: self.target_directory@,
        }
    }
}

/// What is handed to the metadata query: the manifest to read and the
/// features to resolve the dependencies with.
#[derive(Clone, Debug, PartialEq, Eq)]
pub struct MetadataQuery {
    pub manifest_path: Option<String>,
    pub all_features: bool,
    pub no_default_features: bool,
    pub features: Vec<String>,
}

/// The field values of a `MetadataQuery`.
pub struct MetadataQueryView {
    pub manifest_path: Option<Seq<char>>,
    pub all_features: bool,
    pub no_default_features: bool,
    pub features: Seq<Seq<char>>,
}

impl View for MetadataQuery {
    type V = MetadataQueryView;

    open spec fn view(&self) -> MetadataQueryView {
        MetadataQueryView {
            manifest_path: opt_text(self.manifest_path),
            all_features: self.all_features,
            no_default_features: self.no_default_features,
            features: texts(self.features@),
        }
    }
}

/// The record that the first successful metadata query returned, or nothing
/// yet. Once it holds a record it keeps that record for good. A record is
/// stored through `&mut self` alone, so two threads cannot fill one cache at
/// the same time without a lock around it.
#[derive(Clone, Debug, PartialEq, Eq)]
pub struct MetadataCache {
    record: Option<Metadata>,
}

/// The view of an optional record.
pub open spec fn opt_metadata(o: Option<Metadata>) -> Option<MetadataView> {
    match o {
        Some(m) => Some(m@),
        None => None,
    }
}

/// The view of an optional reference to a record.
pub open spec fn opt_metadata_ref(o: Option<&Metadata>) -> Option<MetadataView> {
    match o {
        Some(m) => Some(m@),
        None => None,
    }
}

/// The outcome of a metadata query, as views: the record, or what the query
/// reported.
pub open spec fn outcome_view(outcome: Result<Metadata, String>) -> Result<
    MetadataView,
    Seq<char>,
> {
    match outcome {
        Ok(m) => Ok(m@),
        Err(message) => Err(message@),
    }
}

/// What the cache holds after the outcome of a query has been handed to it: a
/// record that it held stays; an empty cache takes the record of a query that
/// succeeded and stays empty after one that failed.
pub open spec fn cached_after(
    cached: Option<MetadataView>,
    outcome: Result<MetadataView, Seq<char>>,
) -> Option<MetadataView> {
    match cached {
        Some(m) => Some(m),
        None => match outcome {
            Ok(m) => Some(m),
            Err(_) => None,
        },
    }
}

/// What the caller is answered after the outcome of a query has been handed
/// to the cache: the record now held, or the failure of the query.
pub open spec fn answer_after(
    cached: Option<MetadataView>,
    outcome: Result<MetadataView, Seq<char>>,
) -> Result<MetadataView, ErrorView> {
    match cached {
        Some(m) => Ok(m),
        None => match outcome {
            Ok(m) => Ok(m),
            Err(message) => Err(ErrorView::MetadataQuery { message }),
        },
    }
}

/// The view of a record referred to, or of the error.
pub open spec fn metadata_result(r: Result<&Metadata, Error>) -> Result<MetadataView, ErrorView> {
    match r {
        Ok(m) => Ok(m@),
        Err(e) => Err(e@),
    }
}

impl View for MetadataCache {
    type V = Option<MetadataView>;

    closed spec fn view(&self) -> Option<MetadataView> {
        opt_metadata(self.record)
    }
}

impl Default for MetadataCache {
    fn default() -> (r: Self)
        ensures
            r@ is None,
    {
        MetadataCache { record: None }
    }
}

impl MetadataCache {
    /// An empty cache.
    pub fn new() -> (r: Self)
        ensures
            r@ is None,
    {
        MetadataCache { record: None }
    }

    /// Whether a record is held.
    pub fn is_populated(&self) -> (r: bool)
        ensures
            r == (self@ is Some),
    {
        self.record.is_some()
    }

    /// The record held, if there is one.
    pub fn get(&self) -> (r: Option<&Metadata>)
        ensures
            opt_metadata_ref(r) == self@,
    {
        self.record.as_ref()
    }

    /// Takes the outcome of a metadata query and answers with the record now
    /// held. A cache that holds a record keeps it whatever the outcome is.
    pub fn store(&mut self, outcome: Result<Metadata, String>) -> (r: Result<&Metadata, Error>)
        ensures
            final(self)@ == cached_after(old(self)@, outcome_view(outcome)),
            metadata_result(r) == answer_after(old(self)@, outcome_view(outcome)),
    {
        if self.record.is_none() {
            match outcome {
                Ok(m) => {
                    self.record = Some(m);
                },
                Err(message) => {
                    return Err(Error::MetadataQuery { message });
                },
            }
        }
        Ok(self.record.as_ref().unwrap())
    }
}

/// The cache has two states and one way between them. A record that is
/// held is kept and answered whatever a later query returns; an empty cache
/// stays empty after a query that failed, so the next access asks again.
pub proof fn cache_is_filled_once(
    cached: Option<MetadataView>,
    outcome: Result<MetadataView, Seq<char>>,
)
    ensures
        cached matches Some(m) ==> cached_after(cached, outcome) == cached && answer_after(
            cached,
            outcome,
        ) == Ok::<MetadataView, ErrorView>(m),
        cached is None && outcome is Err ==> cached_after(cached, outcome) is None && answer_after(
            cached,
            outcome,
        ) is Err,
        cached is None ==> (outcome matches Ok(m) ==> cached_after(cached, outcome) == Some(m)
            && answer_after(cached, outcome) == Ok::<MetadataView, ErrorView>(m)),
        answer_after(cached, outcome) matches Ok(m) ==> cached_after(cached, outcome) == Some(m),
{
}

} // verus!
