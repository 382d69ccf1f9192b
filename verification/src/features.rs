//! Flags that choose the features of a package.

use vstd::prelude::*;
use crate::impls::{Args, Merge};
use crate::text::{append_strings, join, join_strings, push_str, push_string, texts};

verus! {

/// Which features are switched on. All features and a list of features may
/// both be asked for; both are then written out.
#[derive(Clone, Debug, PartialEq, Eq)]
#[non_exhaustive]
pub struct Features {
    /// Activate all available features.
    pub all_features: bool,
    /// Do not activate the `default` feature.
    pub no_default_features: bool,
    /// The features to activate, in the order in which they were given.
    pub features: Vec<String>,
}

/// The field values of a `Features`.
pub struct FeaturesView {
    pub all_features: bool,
    pub no_default_features: bool,
    pub features: Seq<Seq<char>>,
}

impl View for Features {
    type V = FeaturesView;

    open spec fn view(&self) -> FeaturesView {
        FeaturesView {
            all_features: self.all_features,
            no_default_features: self.no_default_features,
            features: texts(self.features@),
        }
    }
}

impl Default for Features {
    fn default() -> (r: Self)
        ensures
            r@ == (FeaturesView {
                all_features: false,
                no_default_features: false,
                features: Seq::empty(),
            }),
    {
        let r = Features { all_features: false, no_default_features: false, features: Vec::new() };
        assert(texts(r.features@) =~= Seq::empty());
        r
    }
}

impl Merge for Features {
    open spec fn merged(a: FeaturesView, b: FeaturesView) -> FeaturesView {
        FeaturesView {
            all_features: a.all_features || b.all_features,
            no_default_features: a.no_default_features || b.no_default_features,
            features: a.features + b.features,
        }
    }

    fn merge(&mut self, other: Features) {
        let Features { all_features, no_default_features, features } = other;
        self.all_features = self.all_features || all_features;
        self.no_default_features = self.no_default_features || no_default_features;
        append_strings(&mut self.features, features);
    }
}

impl Args for Features {
    open spec fn args(v: FeaturesView) -> Seq<Seq<char>> {
        (if v.all_features {
            seq!["--all-features"@]
        } else {
            Seq::empty()
        }) + (if v.no_default_features {
            seq!["--no-default-features"@]
        } else {
            Seq::empty()
        }) + (if v.features.len() > 0 {
            seq!["--features"@, join(v.features, " "@)]
        } else {
            Seq::empty()
        })
    }

    fn to_args(&self) -> (r: Vec<String>) {
        let mut args: Vec<String> = Vec::new();
        if self.all_features {
            push_str(&mut args, "--all-features");
        }
        if self.no_default_features {
            push_str(&mut args, "--no-default-features");
        }
        if self.features.len() > 0 {
            push_str(&mut args, "--features");
            push_string(&mut args, join_strings(&self.features, " "));
        }
        args
    }
}

/// Merging loses nothing: each flag is set if it was set in either group,
/// and the features are those of the first group followed by those of the
/// second, repeated ones included.
pub proof fn merge_keeps_features(a: FeaturesView, b: FeaturesView)
    ensures
        ({
            let m = Features::merged(a, b);
            &&& m.all_features == (a.all_features || b.all_features)
            &&& m.no_default_features == (a.no_default_features || b.no_default_features)
            &&& m.features == a.features + b.features
            &&& m.features.len() == a.features.len() + b.features.len()
            &&& forall|i: int| 0 <= i < a.features.len() ==> m.features[i] == a.features[i]
            &&& forall|i: int|
                0 <= i < b.features.len() ==> m.features[a.features.len() + i] == b.features[i]
        }),
{
}

} // verus!
