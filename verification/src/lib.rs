//! Argument groups for invoking cargo: each group can be merged with another of
//! its kind and written out as command-line tokens, and the aggregate of all
//! groups answers questions about the workspace from a metadata record that it
//! caches once loaded.

pub mod cargo_bin;
pub mod cargo_build;
pub mod cmd;
pub mod deps;
pub mod error;
pub mod features;
pub mod find;
pub mod impls;
pub mod manifest;
pub mod metadata;
pub mod paths;
pub mod text;
pub mod workspace;

pub use crate::cargo_bin::CargoBin;
pub use crate::cargo_build::CargoBuild;
pub use crate::cmd::{CommandLine, ToCmd};
pub use crate::error::Error;
pub use crate::features::Features;
pub use crate::impls::{Args, Merge};
pub use crate::manifest::Manifest;
pub use crate::metadata::{Dependency, DependencyKind, Metadata, MetadataCache, MetadataQuery, Package};
pub use crate::workspace::Workspace;

use vstd::prelude::*;
use vstd::string::StringExecFns;
use vstd::utf8::{decode_utf8, valid_utf8};
use crate::cargo_bin::{CargoBinView, bin_name};
use crate::cargo_build::CargoBuildView;
use crate::cmd::CommandLineView;
use crate::deps::{deps_in_tree, ref_views, tree_deps};
use crate::error::{ErrorView, text_result};
use crate::features::FeaturesView;
use crate::find::{find, find_in, found_view};
use crate::manifest::ManifestView;
use crate::metadata::{
    MetadataQueryView,
    MetadataView,
    PackageView,
    answer_after,
    cached_after,
    metadata_result,
    outcome_view,
};
use crate::paths::{path_is_relative, path_join, resolved};
use crate::text::{
    append_strings,
    clone_opt,
    clone_strings,
    eq_ignore_ascii_case,
    from_utf8,
    opt_text,
    or_else,
    push_str,
    str_eq_ignore_ascii_case,
    texts,
};
use crate::workspace::WorkspaceView;

verus! {

/// All argument groups together, the arguments handed through to cargo
/// unread, and the cache of the metadata record.
#[derive(Clone, Debug, PartialEq, Eq)]
#[non_exhaustive]
pub struct ClapCargo {
    pub features: Features,
    pub manifest: Manifest,
    pub workspace: Workspace,
    pub cargo_bin: CargoBin,
    pub cargo_build: CargoBuild,
    /// Extra arguments passed to cargo after `--`.
    pub slop: Vec<String>,
    /// The metadata record, once a query for it has succeeded.
    pub metadata_cache: MetadataCache,
}

/// The field values of a `ClapCargo`, and the record that it has cached.
pub struct ClapCargoView {
    pub features: FeaturesView,
    pub manifest: ManifestView,
    pub workspace: WorkspaceView,
    pub cargo_bin: CargoBinView,
    pub cargo_build: CargoBuildView,
    pub slop: Seq<Seq<char>>,
    pub metadata: Option<MetadataView>,
}

impl View for ClapCargo {
    type V = ClapCargoView;

    open spec fn view(&self) -> ClapCargoView {
        ClapCargoView {
            features: self.features@,
            manifest: self.manifest@,
            workspace: self.workspace@,
            cargo_bin: self.cargo_bin@,
            cargo_build: self.cargo_build@,
            slop: texts(self.slop@),
            metadata: self.metadata_cache@,
        }
    }
}

impl ClapCargoView {
    /// The toolchain that runs cargo: nightly where the build is optimised,
    /// else the channel in effect.
    pub open spec fn channel(self) -> Seq<char> {
        if self.cargo_build.optimize {
            "nightly"@
        } else {
            self.cargo_bin.channel_name()
        }
    }

    /// What is handed to the metadata query.
    pub open spec fn metadata_query(self) -> MetadataQueryView {
        MetadataQueryView {
            manifest_path: self.manifest.manifest_path,
            all_features: self.features.all_features,
            no_default_features: self.features.no_default_features,
            features: self.features.features,
        }
    }

    /// The manifest path that was set, else `./Cargo.toml`.
    pub open spec fn manifest_path_or_default(self) -> Seq<char> {
        match self.manifest.manifest_path {
            Some(path) => path,
            None => "./Cargo.toml"@,
        }
    }

    /// The manifest path in use, resolved against the current directory
    /// where it is relative.
    pub open spec fn manifest_path(self, current_dir: Option<Seq<char>>) -> Result<
        Seq<char>,
        ErrorView,
    > {
        let path = self.manifest_path_or_default();
        resolved(path, path_is_relative(path), current_dir)
    }

    /// The command that runs cargo: the binary; the toolchain as its first
    /// argument where the binary is cargo itself; the linker flags in its
    /// environment where stripping is asked for.
    pub open spec fn cargo_cmd(self, cargo_env: Option<Seq<char>>) -> CommandLineView {
        let program = bin_name(cargo_env);
        CommandLineView {
            program,
            args: if eq_ignore_ascii_case(program, "cargo"@) {
                seq!["+"@ + self.channel()]
            } else {
                Seq::empty()
            },
            envs: if self.cargo_build.link_args || self.cargo_build.optimize {
                seq![("RUSTFLAGS"@, "-C link-args=-s"@)]
            } else {
                Seq::empty()
            },
        }
    }

    /// The arguments handed through, after the token that separates them
    /// from the others; nothing where there are none.
    pub open spec fn slop_args(self) -> Seq<Seq<char>> {
        if self.slop.len() > 0 {
            seq!["--"@] + self.slop
        } else {
            Seq::empty()
        }
    }

    /// The command that builds: `cargo_cmd`, the subcommand, the tokens of
    /// the groups, and the arguments handed through.
    pub open spec fn build_cmd(self, cargo_env: Option<Seq<char>>) -> CommandLineView {
        self.cargo_cmd(cargo_env).arg("build"@).args(ClapCargo::args(self)).args(self.slop_args())
    }
}

/// The arguments of the dependency listing of the package with the given
/// manifest, restricted to edges of the given kind.
pub open spec fn tree_args(manifest_path: Seq<char>, dep_kind: DependencyKind) -> Seq<Seq<char>> {
    seq![
        "tree"@,
        "--prefix"@,
        "none"@,
        "--edges"@,
        dep_kind.edges_name(),
        "--manifest-path"@,
        manifest_path,
    ]
}

/// The views of the packages referred to, or of the error.
pub open spec fn packages_result(r: Result<Vec<&Package>, Error>) -> Result<
    Seq<PackageView>,
    ErrorView,
> {
    match r {
        Ok(v) => Ok(ref_views(v@)),
        Err(e) => Err(e@),
    }
}

impl Default for ClapCargo {
    fn default() -> (r: Self)
        ensures
            r@.features == (FeaturesView {
                all_features: false,
                no_default_features: false,
                features: Seq::empty(),
            }),
            r@.manifest == (ManifestView { manifest_path: None }),
            r@.workspace == (WorkspaceView {
                package: Seq::empty(),
                workspace: false,
                all: false,
                exclude: Seq::empty(),
            }),
            r@.cargo_bin == (CargoBinView { channel: None }),
            r@.cargo_build == (CargoBuildView {
                optimize: false,
                target: None,
                all_targets: false,
                link_args: false,
                release: false,
                profile: None,
            }),
            r@.slop == Seq::<Seq<char>>::empty(),
            r@.metadata is None,
    {
        let r = ClapCargo {
            features: Features::default(),
            manifest: Manifest::default(),
            workspace: Workspace::default(),
            cargo_bin: CargoBin::default(),
            cargo_build: CargoBuild::default(),
            slop: Vec::new(),
            metadata_cache: MetadataCache::new(),
        };
        r
    }
}

impl ClapCargo {
    /// What is handed to the metadata query: the manifest path and the
    /// feature flags as they are now.
    pub fn metadata_query(&self) -> (r: MetadataQuery)
        ensures
            r@ == self@.metadata_query(),
    {
        MetadataQuery {
            manifest_path: clone_opt(&self.manifest.manifest_path),
            all_features: self.features.all_features,
            no_default_features: self.features.no_default_features,
            features: clone_strings(&self.features.features),
        }
    }

    /// The query to run before the metadata can be read: none once a record
    /// is cached, whatever has changed since.
    pub fn metadata_request(&self) -> (r: Option<MetadataQuery>)
        ensures
            r is None <==> self@.metadata is Some,
            r matches Some(q) ==> q@ == self@.metadata_query(),
    {
        if self.metadata_cache.is_populated() {
            None
        } else {
            Some(self.metadata_query())
        }
    }

    /// The metadata record, given the outcome of the query that
    /// `metadata_request` asked for. The first record that arrives is cached
    /// and answered from then on; a failure is reported and caches nothing.
    pub fn metadata(&mut self, outcome: Result<Metadata, String>) -> (r: Result<&Metadata, Error>)
        ensures
            final(self)@ == (ClapCargoView {
                metadata: cached_after(old(self)@.metadata, outcome_view(outcome)),
                ..old(self)@
            }),
            metadata_result(r) == answer_after(old(self)@.metadata, outcome_view(outcome)),
    {
        self.metadata_cache.store(outcome)
    }

    /// The manifest path that was set, else `./Cargo.toml`.
    pub fn manifest_path_or_default(&self) -> (r: String)
        ensures
            r@ == self@.manifest_path_or_default(),
    {
        match &self.manifest.manifest_path {
            Some(path) => path.clone(),
            None => String::from_str("./Cargo.toml"),
        }
    }

    /// The manifest path in use. A relative path is joined to `current_dir`,
    /// and fails where that is not known.
    pub fn manifest_path(&self, current_dir: Option<&str>) -> (r: Result<String, Error>)
        ensures
            text_result(r) == self@.manifest_path(
                match current_dir {
                    Some(dir) => Some(dir@),
                    None => None,
                },
            ),
    {
        let path = self.manifest_path_or_default();
        let relative = crate::paths::is_relative(path.as_str());
        crate::paths::resolve(path, relative, current_dir)
    }

    /// The directory where build artifacts go.
    pub fn target_dir(&self) -> (r: Result<String, Error>)
        ensures
            text_result(r) == (match self@.metadata {
                Some(m) => Ok(m.target_directory),
                None => Err(ErrorView::NoMetadata),
            }),
    {
        match self.metadata_cache.get() {
            Some(m) => Ok(m.target_directory.clone()),
            None => Err(Error::NoMetadata),
        }
    }

    /// All packages of the metadata record, in its order.
    pub fn packages(&self) -> (r: Result<Vec<&Package>, Error>)
        ensures
            packages_result(r) == (match self@.metadata {
                Some(m) => Ok(m.packages),
                None => Err(ErrorView::NoMetadata),
            }),
    {
        match self.metadata_cache.get() {
            Some(m) => {
                let mut all: Vec<&Package> = Vec::new();
                let mut i: usize = 0;
                while i < m.packages.len()
                    invariant
                        i <= m.packages.len(),
                        all.len() == i,
                        forall|j: int| 0 <= j < i ==> all@[j]@ == m.packages@[j]@,
                    decreases m.packages.len() - i,
                {
                    all.push(&m.packages[i]);
                    i += 1;
                }
                assert(ref_views(all@) =~= m@.packages);
                Ok(all)
            },
            None => Err(Error::NoMetadata),
        }
    }

    /// The arguments with which cargo lists the dependencies of `p` along
    /// edges of the given kind, one package per line.
    pub fn tree_args(&self, p: &Package, dep_kind: DependencyKind) -> (r: Vec<String>)
        ensures
            texts(r@) == tree_args(p@.manifest_path, dep_kind),
    {
        let mut args: Vec<String> = Vec::new();
        push_str(&mut args, "tree");
        push_str(&mut args, "--prefix");
        push_str(&mut args, "none");
        push_str(&mut args, "--edges");
        push_str(&mut args, dep_kind.edges());
        push_str(&mut args, "--manifest-path");
        push_str(&mut args, p.manifest_path.as_str());
        args
    }

    /// The packages that `p` depends on, given what cargo printed when it
    /// was run with `tree_args`: the packages of the record that the lines
    /// name, in the order of the lines, without `p` itself. A line that names
    /// no package of the record is passed over.
    pub fn get_deps(&self, p: &Package, listing: Vec<u8>) -> (r: Result<Vec<&Package>, Error>)
        ensures
            packages_result(r) == (match self@.metadata {
                None => Err(ErrorView::NoMetadata),
                Some(m) => if valid_utf8(listing@) {
                    Ok(tree_deps(m.packages, p@, decode_utf8(listing@)))
                } else {
                    Err(ErrorView::MalformedListing { package: p@.name })
                },
            }),
    {
        match self.metadata_cache.get() {
            None => Err(Error::NoMetadata),
            Some(m) => match from_utf8(listing) {
                Some(text) => Ok(deps_in_tree(&m.packages, p, text.as_str())),
                None => Err(Error::MalformedListing { package: p.name.clone() }),
            },
        }
    }

    /// The toolchain that runs cargo.
    pub fn channel(&self) -> (r: &str)
        ensures
            r@ == self@.channel(),
    {
        if self.cargo_build.optimize {
            "nightly"
        } else {
            self.cargo_bin.channel()
        }
    }

    /// The command that runs cargo. `cargo_env` is the value of the
    /// environment variable `CARGO`, if it is set.
    pub fn cargo_cmd(&self, cargo_env: Option<String>) -> (r: CommandLine)
        ensures
            r@ == self@.cargo_cmd(opt_text(cargo_env)),
    {
        let program = self.cargo_bin.bin(cargo_env);
        let toolchain = str_eq_ignore_ascii_case(program.as_str(), "cargo");
        let mut cmd = CommandLine::new(program);
        if toolchain {
            let mut selector = String::from_str("+");
            selector.append(self.channel());
            cmd.arg(selector);
        }
        if self.cargo_build.link_args || self.cargo_build.optimize {
            cmd.env(String::from_str("RUSTFLAGS"), String::from_str("-C link-args=-s"));
        }
        cmd
    }

    /// Adds the tokens of the groups to a command, and after them the
    /// arguments handed through, behind `--`.
    pub fn add_args_to_cmd(&self, cmd: &mut CommandLine)
        ensures
            final(cmd)@ == old(cmd)@.args(ClapCargo::args(self@)).args(self@.slop_args()),
    {
        cmd.args(self.to_args());
        let mut rest: Vec<String> = Vec::new();
        if self.slop.len() > 0 {
            push_str(&mut rest, "--");
            append_strings(&mut rest, clone_strings(&self.slop));
        }
        assert(texts(rest@) =~= self@.slop_args());
        cmd.args(rest);
    }

    /// The older name of `add_args_to_cmd`.
    pub fn add_cargo_args(&self, cmd: &mut CommandLine)
        ensures
            final(cmd)@ == old(cmd)@.args(ClapCargo::args(self@)).args(self@.slop_args()),
    {
        self.add_args_to_cmd(cmd);
    }

    /// The command that builds.
    pub fn build_cmd(&self, cargo_env: Option<String>) -> (r: CommandLine)
        ensures
            r@ == self@.build_cmd(opt_text(cargo_env)),
    {
        let mut cmd = self.cargo_cmd(cargo_env);
        cmd.arg(String::from_str("build"));
        self.add_args_to_cmd(&mut cmd);
        cmd
    }

    /// The package named `name`. Where no package has that name but one has
    /// a name of the same form, the search fails and names it.
    pub fn find_package(&self, name: &str) -> (r: Result<Option<&Package>, Error>)
        ensures
            found_view(r) == (match self@.metadata {
                Some(m) => find(m.packages, name@),
                None => Err(ErrorView::NoMetadata),
            }),
    {
        match self.metadata_cache.get() {
            Some(m) => find_in(&m.packages, name),
            None => Err(Error::NoMetadata),
        }
    }

    /// Where the build leaves the wasm binary named `wasm_bin_name`.
    pub fn built_bin(&self, wasm_bin_name: &str) -> (r: Result<String, Error>)
        ensures
            text_result(r) == (match self@.metadata {
                Some(m) => Ok(
                    path_join(
                        path_join(
                            path_join(m.target_directory, "wasm32-unknown-unknown"@),
                            self@.cargo_build.profile_name(),
                        ),
                        wasm_bin_name@,
                    ),
                ),
                None => Err(ErrorView::NoMetadata),
            }),
    {
        match self.metadata_cache.get() {
            Some(m) => {
                let dir = crate::paths::join(m.target_directory.as_str(), "wasm32-unknown-unknown");
                let dir = crate::paths::join(dir.as_str(), self.cargo_build.profile());
                Ok(crate::paths::join(dir.as_str(), wasm_bin_name))
            },
            None => Err(Error::NoMetadata),
        }
    }
}

impl Merge for ClapCargo {
    open spec fn merged(a: ClapCargoView, b: ClapCargoView) -> ClapCargoView {
        ClapCargoView {
            features: Features::merged(a.features, b.features),
            manifest: Manifest::merged(a.manifest, b.manifest),
            workspace: Workspace::merged(a.workspace, b.workspace),
            cargo_bin: CargoBin::merged(a.cargo_bin, b.cargo_bin),
            cargo_build: CargoBuild::merged(a.cargo_build, b.cargo_build),
            slop: a.slop + b.slop,
            metadata: a.metadata,
        }
    }

    fn merge(&mut self, other: ClapCargo) {
        let ClapCargo {
            features,
            manifest,
            workspace,
            cargo_bin,
            cargo_build,
            slop,
            metadata_cache: _,
        } = other;
        self.features.merge(features);
        self.manifest.merge(manifest);
        self.workspace.merge(workspace);
        self.cargo_bin.merge(cargo_bin);
        self.cargo_build.merge(cargo_build);
        append_strings(&mut self.slop, slop);
    }
}

impl Args for ClapCargo {
    open spec fn args(v: ClapCargoView) -> Seq<Seq<char>> {
        Workspace::args(v.workspace) + Features::args(v.features) + CargoBuild::args(
            v.cargo_build,
        ) + Manifest::args(v.manifest)
    }

    fn to_args(&self) -> (r: Vec<String>) {
        let mut args = self.workspace.to_args();
        append_strings(&mut args, self.features.to_args());
        append_strings(&mut args, self.cargo_build.to_args());
        append_strings(&mut args, self.manifest.to_args());
        args
    }
}

/// Merging two aggregates merges each group with its counterpart and loses
/// nothing: every optional value that was set stays, every one that was not
/// set is taken from the other aggregate, every flag is set if it was set in
/// either, and every list is followed by the other's. The arguments handed
/// through are followed by the other's, and the cached metadata stays.
pub proof fn merge_loses_nothing(a: ClapCargoView, b: ClapCargoView)
    ensures
        ({
            let m = ClapCargo::merged(a, b);
            &&& or_else(a.manifest.manifest_path, b.manifest.manifest_path)
                == m.manifest.manifest_path
            &&& or_else(a.cargo_bin.channel, b.cargo_bin.channel) == m.cargo_bin.channel
            &&& or_else(a.cargo_build.target, b.cargo_build.target) == m.cargo_build.target
            &&& or_else(a.cargo_build.profile, b.cargo_build.profile) == m.cargo_build.profile
            &&& m.features.all_features == (a.features.all_features || b.features.all_features)
            &&& m.features.no_default_features == (a.features.no_default_features
                || b.features.no_default_features)
            &&& m.workspace.workspace == (a.workspace.workspace || b.workspace.workspace)
            &&& m.workspace.all == (a.workspace.all || b.workspace.all)
            &&& m.cargo_build.optimize == (a.cargo_build.optimize || b.cargo_build.optimize)
            &&& m.cargo_build.all_targets == (a.cargo_build.all_targets
                || b.cargo_build.all_targets)
            &&& m.cargo_build.link_args == (a.cargo_build.link_args || b.cargo_build.link_args)
            &&& m.cargo_build.release == (a.cargo_build.release || b.cargo_build.release)
            &&& m.features.features == a.features.features + b.features.features
            &&& m.workspace.package == a.workspace.package + b.workspace.package
            &&& m.workspace.exclude == a.workspace.exclude + b.workspace.exclude
            &&& m.slop == a.slop + b.slop
            &&& m.metadata == a.metadata
        }),
{
}

/// Merging a release build and a build with a named profile, in either
/// order, gives a release build with that profile.
pub proof fn merge_keeps_release_and_profile(a: CargoBuildView, b: CargoBuildView, name: Seq<char>)
    requires
        a.release,
        a.profile is None,
        b.profile == Some(name),
    ensures
        CargoBuild::merged(a, b).release,
        CargoBuild::merged(a, b).profile == Some(name),
        CargoBuild::merged(b, a).release,
        CargoBuild::merged(b, a).profile == Some(name),
{
}

/// The tokens of an aggregate are those of its groups in the order
/// workspace, features, build options, manifest. They depend on the values
/// of these four groups alone: neither the toolchain nor the arguments handed
/// through nor the cached metadata has a part in them.
pub proof fn args_depend_on_four_groups(a: ClapCargoView, b: ClapCargoView)
    requires
        a.workspace == b.workspace,
        a.features == b.features,
        a.cargo_build == b.cargo_build,
        a.manifest == b.manifest,
    ensures
        ClapCargo::args(a) == ClapCargo::args(b),
        ClapCargo::args(a) == Workspace::args(a.workspace) + Features::args(a.features)
            + CargoBuild::args(a.cargo_build) + Manifest::args(a.manifest),
{
}

} // verus!
