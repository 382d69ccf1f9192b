//! Flags that choose the cargo binary and its toolchain.

use vstd::prelude::*;
use vstd::string::StringExecFns;
use crate::impls::{Args, Merge};
use crate::text::{opt_text, or_else, push_str, texts};

verus! {

/// Which toolchain runs cargo.
#[derive(Clone, Debug, PartialEq, Eq)]
#[non_exhaustive]
pub struct CargoBin {
    /// stable, beta, nightly, or a custom toolchain; stable where none is set.
    channel: Option<String>,
}

/// The field values of a `CargoBin`.
pub struct CargoBinView {
    /// The channel as it was set, without the fallback.
    pub channel: Option<Seq<char>>,
}

impl View for CargoBin {
    type V = CargoBinView;

    closed spec fn view(&self) -> CargoBinView {
        CargoBinView { channel: opt_text(self.channel) }
    }
}

impl CargoBinView {
    /// The channel in effect: the one set, else `stable`.
    pub open spec fn channel_name(self) -> Seq<char> {
        match self.channel {
            Some(name) => name,
            None => "stable"@,
        }
    }
}

/// The binary to run: the override if there is one, else `cargo`.
pub open spec fn bin_name(cargo_env: Option<Seq<char>>) -> Seq<char> {
    match cargo_env {
        Some(path) => path,
        None => "cargo"@,
    }
}

impl Default for CargoBin {
    fn default() -> (r: Self)
        ensures
            r@ == (CargoBinView { channel: None }),
    {
        CargoBin { channel: None }
    }
}

impl CargoBin {
    /// A selector with the given channel, or with none.
    pub fn new(channel: Option<String>) -> (r: Self)
        ensures
            r@ == (CargoBinView { channel: opt_text(channel) }),
    {
        CargoBin { channel }
    }

    /// The channel as it was set, without the fallback.
    pub fn explicit_channel(&self) -> (r: Option<&str>)
        ensures
            match r {
                Some(name) => self@.channel == Some(name@),
                None => self@.channel is None,
            },
    {
        match &self.channel {
            Some(name) => Some(name.as_str()),
            None => None,
        }
    }

    /// The binary to run. `cargo_env` is the value of the environment
    /// variable `CARGO`, if it is set.
    pub fn bin(&self, cargo_env: Option<String>) -> (r: String)
        ensures
            r@ == bin_name(opt_text(cargo_env)),
    {
        match cargo_env {
            Some(path) => path,
            None => String::from_str("cargo"),
        }
    }

    /// The channel in effect.
    pub fn channel(&self) -> (r: &str)
        ensures
            r@ == self@.channel_name(),
    {
        match &self.channel {
            Some(name) => name.as_str(),
            None => "stable",
        }
    }
}

impl Merge for CargoBin {
    open spec fn merged(a: CargoBinView, b: CargoBinView) -> CargoBinView {
        CargoBinView { channel: or_else(a.channel, b.channel) }
    }

    fn merge(&mut self, other: CargoBin) {
        if self.channel.is_none() {
            self.channel = other.channel;
        }
    }
}

impl Args for CargoBin {
    open spec fn args(v: CargoBinView) -> Seq<Seq<char>> {
        match v.channel {
            Some(name) => seq!["--channel"@, name],
            None => Seq::empty(),
        }
    }

    fn to_args(&self) -> (r: Vec<String>) {
        let mut args: Vec<String> = Vec::new();
        if let Some(channel) = &self.channel {
            push_str(&mut args, "--channel");
            push_str(&mut args, channel.as_str());
        }
        args
    }
}

/// Merging loses nothing: a channel that was set stays, and one that was not
/// set is taken from the other group.
pub proof fn merge_keeps_channel(a: CargoBinView, b: CargoBinView)
    ensures
        a.channel is Some ==> CargoBin::merged(a, b).channel == a.channel,
        a.channel is None ==> CargoBin::merged(a, b).channel == b.channel,
{
}

} // verus!
