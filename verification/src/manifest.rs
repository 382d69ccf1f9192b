//! The flag that chooses the manifest.

use vstd::prelude::*;
use crate::impls::{Args, Merge};
use crate::text::{opt_text, or_else, push_str, texts};

verus! {

/// Which manifest cargo reads. Where none is set, it is `./Cargo.toml` in the
/// current directory.
#[derive(Clone, Debug, PartialEq, Eq)]
#[non_exhaustive]
pub struct Manifest {
    /// Path to Cargo.toml.
    pub manifest_path: Option<String>,
}

/// The field values of a `Manifest`.
pub struct ManifestView {
    pub manifest_path: Option<Seq<char>>,
}

impl View for Manifest {
    type V = ManifestView;

    open spec fn view(&self) -> ManifestView {
        ManifestView { manifest_path: opt_text(self.manifest_path) }
    }
}

impl Default for Manifest {
    fn default() -> (r: Self)
        ensures
            r@ == (ManifestView { manifest_path: None }),
    {
        Manifest { manifest_path: None }
    }
}

impl Merge for Manifest {
    open spec fn merged(a: ManifestView, b: ManifestView) -> ManifestView {
        ManifestView { manifest_path: or_else(a.manifest_path, b.manifest_path) }
    }

    fn merge(&mut self, other: Manifest) {
        if self.manifest_path.is_none() {
            self.manifest_path = other.manifest_path;
        }
    }
}

impl Args for Manifest {
    open spec fn args(v: ManifestView) -> Seq<Seq<char>> {
        match v.manifest_path {
            Some(path) => seq!["--manifest-path"@, path],
            None => Seq::empty(),
        }
    }

    fn to_args(&self) -> (r: Vec<String>) {
        let mut args: Vec<String> = Vec::new();
        if let Some(path) = &self.manifest_path {
            push_str(&mut args, "--manifest-path");
            push_str(&mut args, path.as_str());
        }
        args
    }
}

/// Merging loses nothing: a manifest path that was set stays, and one that
/// was not set is taken from the other group.
pub proof fn merge_keeps_manifest_path(a: ManifestView, b: ManifestView)
    ensures
        a.manifest_path is Some ==> Manifest::merged(a, b).manifest_path == a.manifest_path,
        a.manifest_path is None ==> Manifest::merged(a, b).manifest_path == b.manifest_path,
{
}

} // verus!
