//! Flags that choose how cargo builds.

use vstd::prelude::*;
use crate::impls::{Args, Merge};
use crate::text::{opt_text, or_else, push_str, texts};

verus! {

/// How cargo builds: target, profile and optimisation.
#[derive(Clone, Debug, PartialEq, Eq)]
#[non_exhaustive]
pub struct CargoBuild {
    /// Build the standard library too, on the nightly toolchain, for size.
    pub optimize: bool,
    /// Build for the target triple.
    pub target: Option<String>,
    /// Build all targets.
    pub all_targets: bool,
    /// Ask the linker to strip the binary.
    pub link_args: bool,
    /// Build in release mode.
    pub release: bool,
    /// Build with the named profile.
    pub profile: Option<String>,
}

/// The field values of a `CargoBuild`.
pub struct CargoBuildView {
    pub optimize: bool,
    pub target: Option<Seq<char>>,
    pub all_targets: bool,
    pub link_args: bool,
    pub release: bool,
    pub profile: Option<Seq<char>>,
}

impl View for CargoBuild {
    type V = CargoBuildView;

    open spec fn view(&self) -> CargoBuildView {
        CargoBuildView {
            optimize: self.optimize,
            target: opt_text(self.target),
            all_targets: self.all_targets,
            link_args: self.link_args,
            release: self.release,
            profile: opt_text(self.profile),
        }
    }
}

impl CargoBuildView {
    /// The profile named by the release flag alone.
    pub open spec fn release_or_debug(self) -> Seq<char> {
        if self.release {
            "release"@
        } else {
            "debug"@
        }
    }

    /// The profile in effect: the named one if there is one, else the one
    /// that the release flag names.
    pub open spec fn profile_name(self) -> Seq<char> {
        match self.profile {
            Some(name) => name,
            None => self.release_or_debug(),
        }
    }
}

impl Default for CargoBuild {
    fn default() -> (r: Self)
        ensures
            r@ == (CargoBuildView {
                optimize: false,
                target: None,
                all_targets: false,
                link_args: false,
                release: false,
                profile: None,
            }),
    {
        CargoBuild {
            optimize: false,
            target: None,
            all_targets: false,
            link_args: false,
            release: false,
            profile: None,
        }
    }
}

impl CargoBuild {
    /// The profile in effect.
    pub fn profile(&self) -> (r: &str)
        ensures
            r@ == self@.profile_name(),
    {
        match &self.profile {
            Some(name) => name.as_str(),
            None => self.release_or_debug(),
        }
    }

    /// The profile named by the release flag alone.
    pub fn release_or_debug(&self) -> (r: &str)
        ensures
            r@ == self@.release_or_debug(),
    {
        if self.release {
            "release"
        } else {
            "debug"
        }
    }
}

impl Merge for CargoBuild {
    open spec fn merged(a: CargoBuildView, b: CargoBuildView) -> CargoBuildView {
        CargoBuildView {
            optimize: a.optimize || b.optimize,
            target: or_else(a.target, b.target),
            all_targets: a.all_targets || b.all_targets,
            link_args: a.link_args || b.link_args,
            release: a.release || b.release,
            profile: or_else(a.profile, b.profile),
        }
    }

    fn merge(&mut self, other: CargoBuild) {
        let CargoBuild { optimize, target, all_targets, link_args, release, profile } = other;
        self.optimize = self.optimize || optimize;
        if self.target.is_none() {
            self.target = target;
        }
        self.all_targets = self.all_targets || all_targets;
        self.link_args = self.link_args || link_args;
        self.release = self.release || release;
        if self.profile.is_none() {
            self.profile = profile;
        }
    }
}

impl Args for CargoBuild {
    open spec fn args(v: CargoBuildView) -> Seq<Seq<char>> {
        (if v.optimize {
            seq![
                "-Z=build-std=std,panic_abort"@,
                "-Z=build-std-features=panic_immediate_abort"@,
            ]
        } else {
            Seq::empty()
        }) + (match v.target {
            Some(triple) => seq!["--target"@, triple],
            None => Seq::empty(),
        }) + (if v.all_targets {
            seq!["--all-targets"@]
        } else {
            Seq::empty()
        }) + (if v.release {
            seq!["--release"@]
        } else {
            Seq::empty()
        }) + (match v.profile {
            Some(name) => seq!["--profile"@, name],
            None => Seq::empty(),
        })
    }

    fn to_args(&self) -> (r: Vec<String>) {
        let mut args: Vec<String> = Vec::new();
        if self.optimize {
            push_str(&mut args, "-Z=build-std=std,panic_abort");
            push_str(&mut args, "-Z=build-std-features=panic_immediate_abort");
        }
        if let Some(target) = &self.target {
            push_str(&mut args, "--target");
            push_str(&mut args, target.as_str());
        }
        if self.all_targets {
            push_str(&mut args, "--all-targets");
        }
        if self.release {
            push_str(&mut args, "--release");
        }
        if let Some(profile) = &self.profile {
            push_str(&mut args, "--profile");
            push_str(&mut args, profile.as_str());
        }
        args
    }
}

/// Merging loses nothing: a target or profile that was set stays, one that
/// was not set is taken from the other group, and each flag is set if it was
/// set in either group.
pub proof fn merge_keeps_build_options(a: CargoBuildView, b: CargoBuildView)
    ensures
        ({
            let m = CargoBuild::merged(a, b);
            &&& a.target is Some ==> m.target == a.target
            &&& a.target is None ==> m.target == b.target
            &&& a.profile is Some ==> m.profile == a.profile
            &&& a.profile is None ==> m.profile == b.profile
            &&& m.optimize == (a.optimize || b.optimize)
            &&& m.all_targets == (a.all_targets || b.all_targets)
            &&& m.link_args == (a.link_args || b.link_args)
            &&& m.release == (a.release || b.release)
        }),
{
}

/// The tokens follow the fixed order: `--release` is among them where the
/// release flag is set, and a profile that is set is written last, right
/// after its flag, and is the profile in effect whatever the release flag
/// says.
pub proof fn build_args_follow_schema(v: CargoBuildView)
    ensures
        v.release ==> CargoBuild::args(v).contains("--release"@),
        v.profile matches Some(name) ==> {
            let args = CargoBuild::args(v);
            &&& args.len() >= 2
            &&& args[args.len() - 2] == "--profile"@
            &&& args[args.len() - 1] == name
            &&& v.profile_name() == name
        },
        v.target matches Some(triple) ==> {
            let args = CargoBuild::args(v);
            let at = if v.optimize {
                2int
            } else {
                0int
            };
            &&& args.len() >= at + 2
            &&& args[at] == "--target"@
            &&& args[at + 1] == triple
        },
{
    let args = CargoBuild::args(v);
    if v.release {
        let at = (if v.optimize {
            2int
        } else {
            0int
        }) + (if v.target is Some {
            2int
        } else {
            0int
        }) + (if v.all_targets {
            1int
        } else {
            0int
        });
        assert(args[at] == "--release"@);
    }
}

} // verus!
