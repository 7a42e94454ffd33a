use vstd::prelude::*;
use crate::plugin::{LogLevel, Plugin};

verus! {

/// The platform that the application is built for.
#[derive(Clone, Copy, Debug, PartialEq, Eq, Structural)]
pub enum Platform {
    Linux,
    Macos,
    Windows,
    Android,
    Ios,
}

impl Platform {
    /// The mobile platforms are Android and iOS.
    pub open spec fn is_mobile_spec(self) -> bool {
        self is Android || self is Ios
    }

    pub fn is_mobile(&self) -> (r: bool)
        ensures
            r == self.is_mobile_spec(),
    {
        match self {
            Platform::Android | Platform::Ios => true,
            _ => false,
        }
    }
}

/// What start-up depends on, fixed when the application is built.
#[derive(Clone, Copy, Debug, PartialEq, Eq, Structural)]
pub struct BuildConfig {
    pub platform: Platform,
    /// A debug build rather than a release build.
    pub debug: bool,
}

/// The plugins that every build attaches, in attachment order.
pub open spec fn base_plugins() -> Seq<Plugin> {
    seq![Plugin::DeepLink, Plugin::Store, Plugin::Os, Plugin::Notification]
}

/// The plugins attached to the builder before start-up, in order: the base
/// plugins, then biometrics on a mobile platform.
pub open spec fn builder_plugins_spec(platform: Platform) -> Seq<Plugin> {
    if platform.is_mobile_spec() {
        base_plugins().push(Plugin::Biometric)
    } else {
        base_plugins()
    }
}

/// The plugins that the setup hook attaches: logging at the informational
/// level in a debug build, nothing in a release build.
pub open spec fn setup_plugins_spec(debug: bool) -> Seq<Plugin> {
    if debug {
        seq![Plugin::Log(LogLevel::Info)]
    } else {
        seq![]
    }
}

/// The plugins to attach to the builder, in attachment order.
pub fn builder_plugins(platform: Platform) -> (r: Vec<Plugin>)
    ensures
        r@ == builder_plugins_spec(platform),
        r@.len() >= 4,
        r@.take(4) == base_plugins(),
        r@.contains(Plugin::Biometric) <==> platform.is_mobile_spec(),
        forall|i: int| 0 <= i < r@.len() ==> !(r@[i] is Log),
{
    let mut r: Vec<Plugin> = Vec::new();
    r.push(Plugin::DeepLink);
    r.push(Plugin::Store);
    r.push(Plugin::Os);
    r.push(Plugin::Notification);
    if platform.is_mobile() {
        r.push(Plugin::Biometric);
    }
    proof {
        assert(r@.take(4) =~= base_plugins());
        if platform.is_mobile_spec() {
            assert(r@ =~= base_plugins().push(Plugin::Biometric));
            assert(r@[4] == Plugin::Biometric);
        } else {
            assert(r@ =~= base_plugins());
            assert forall|i: int| 0 <= i < r@.len() implies r@[i] != Plugin::Biometric by {
                assert(0 <= i < 4);
            }
        }
    }
    r
}

/// The plugins that the setup hook attaches, in attachment order.
pub fn setup_plugins(debug: bool) -> (r: Vec<Plugin>)
    ensures
        r@ == setup_plugins_spec(debug),
        debug ==> r@ == seq![Plugin::Log(LogLevel::Info)],
        !debug ==> r@.len() == 0,
{
    let mut r: Vec<Plugin> = Vec::new();
    if debug {
        r.push(Plugin::Log(LogLevel::Info));
    }
    proof {
        if debug {
            assert(r@ =~= seq![Plugin::Log(LogLevel::Info)]);
        } else {
            assert(r@ =~= Seq::<Plugin>::empty());
        }
    }
    r
}

} // verus!
