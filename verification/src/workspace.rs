//! Flags that choose packages of a workspace.

use vstd::prelude::*;
use crate::impls::{Args, Merge};
use crate::text::{append_strings, push_str, texts};

verus! {

/// Which packages of the workspace are meant.
#[derive(Clone, Debug, PartialEq, Eq)]
#[non_exhaustive]
pub struct Workspace {
    /// Packages to process, in the order in which they were given.
    pub package: Vec<String>,
    /// Process all packages in the workspace.
    pub workspace: bool,
    /// The same as `workspace`.
    pub all: bool,
    /// Packages to leave out, in the order in which they were given.
    pub exclude: Vec<String>,
}

/// The field values of a `Workspace`.
pub struct WorkspaceView {
    pub package: Seq<Seq<char>>,
    pub workspace: bool,
    pub all: bool,
    pub exclude: Seq<Seq<char>>,
}

impl View for Workspace {
    type V = WorkspaceView;

    open spec fn view(&self) -> WorkspaceView {
        WorkspaceView {
            package: texts(self.package@),
            workspace: self.workspace,
            all: self.all,
            exclude: texts(self.exclude@),
        }
    }
}

/// Each item of `items` after a token `flag` of its own, in order.
pub open spec fn flagged(flag: Seq<char>, items: Seq<Seq<char>>) -> Seq<Seq<char>>
    decreases items.len(),
{
    if items.len() == 0 {
        Seq::empty()
    } else {
        flagged(flag, items.drop_last()) + seq![flag, items.last()]
    }
}

/// A flag is repeated for each item: the tokens are two for each item, the
/// flag and right after it the item, in the order of the items.
pub proof fn each_item_follows_its_flag(flag: Seq<char>, items: Seq<Seq<char>>)
    ensures
        flagged(flag, items).len() == 2 * items.len(),
        forall|i: int|
            0 <= i < items.len() ==> #[trigger] flagged(flag, items)[2 * i] == flag && flagged(
                flag,
                items,
            )[2 * i + 1] == items[i],
    decreases items.len(),
{
    if items.len() > 0 {
        each_item_follows_its_flag(flag, items.drop_last());
        let f = flagged(flag, items);
        assert forall|i: int| 0 <= i < items.len() implies #[trigger] f[2 * i] == flag && f[2 * i
            + 1] == items[i] by {}
    }
}

impl Default for Workspace {
    fn default() -> (r: Self)
        ensures
            r@ == (WorkspaceView {
                package: Seq::empty(),
                workspace: false,
                all: false,
                exclude: Seq::empty(),
            }),
    {
        let r = Workspace {
            package: Vec::new(),
            workspace: false,
            all: false,
            exclude: Vec::new(),
        };
        assert(texts(r.package@) =~= Seq::empty());
        assert(texts(r.exclude@) =~= Seq::empty());
        r
    }
}

impl Merge for Workspace {
    open spec fn merged(a: WorkspaceView, b: WorkspaceView) -> WorkspaceView {
        WorkspaceView {
            package: a.package + b.package,
            workspace: a.workspace || b.workspace,
            all: a.all || b.all,
            exclude: a.exclude + b.exclude,
        }
    }

    fn merge(&mut self, other: Workspace) {
        let Workspace { package, workspace, all, exclude } = other;
        append_strings(&mut self.package, package);
        self.workspace = self.workspace || workspace;
        self.all = self.all || all;
        append_strings(&mut self.exclude, exclude);
    }
}

/// Appends `flag` and the item to `args`, for each item in order.
fn push_flagged(args: &mut Vec<String>, flag: &str, items: &Vec<String>)
    ensures
        texts(final(args)@) == texts(old(args)@) + flagged(flag@, texts(items@)),
{
    let mut i: usize = 0;
    while i < items.len()
        invariant
            i <= items.len(),
            texts(args@) == texts(old(args)@) + flagged(flag@, texts(items@).take(i as int)),
        decreases items.len() - i,
    {
        push_str(args, flag);
        push_str(args, items[i].as_str());
        assert(texts(items@).take(i + 1).drop_last() =~= texts(items@).take(i as int));
        i += 1;
    }
    assert(texts(items@).take(items.len() as int) =~= texts(items@));
}

impl Args for Workspace {
    open spec fn args(v: WorkspaceView) -> Seq<Seq<char>> {
        (if v.workspace || v.all {
            seq!["--workspace"@]
        } else {
            Seq::empty()
        }) + flagged("--package"@, v.package) + flagged("--exclude"@, v.exclude)
    }

    fn to_args(&self) -> (r: Vec<String>) {
        let mut args: Vec<String> = Vec::new();
        if self.workspace || self.all {
            push_str(&mut args, "--workspace");
        }
        push_flagged(&mut args, "--package", &self.package);
        push_flagged(&mut args, "--exclude", &self.exclude);
        args
    }
}

/// Merging loses nothing: each flag is set if it was set in either group,
/// and each list is that of the first group followed by that of the second,
/// repeated packages included.
pub proof fn merge_keeps_packages(a: WorkspaceView, b: WorkspaceView)
    ensures
        ({
            let m = Workspace::merged(a, b);
            &&& m.workspace == (a.workspace || b.workspace)
            &&& m.all == (a.all || b.all)
            &&& m.package == a.package + b.package
            &&& m.exclude == a.exclude + b.exclude
            &&& forall|i: int| 0 <= i < a.package.len() ==> m.package[i] == a.package[i]
            &&& forall|i: int|
                0 <= i < b.package.len() ==> m.package[a.package.len() + i] == b.package[i]
            &&& forall|i: int| 0 <= i < a.exclude.len() ==> m.exclude[i] == a.exclude[i]
            &&& forall|i: int|
                0 <= i < b.exclude.len() ==> m.exclude[a.exclude.len() + i] == b.exclude[i]
        }),
{
}

} // verus!
