use vstd::prelude::*;
use crate::bootstrap::{initial, replay, setup_count, step, wf, BootState, Event};
use crate::config::{base_plugins, builder_plugins_spec, setup_plugins_spec, BuildConfig};
use crate::plugin::{LogLevel, Plugin};

verus! {

/// Every event keeps a state well formed.
pub proof fn lemma_step_preserves_wf(s: BootState, e: Event)
    requires
        wf(s),
    ensures
        wf(step(s, e)),
{
}

/// Every state reached from start-up by any events is well formed.
pub proof fn lemma_replay_wf(config: BuildConfig, evs: Seq<Event>)
    ensures
        wf(replay(initial(config), evs)),
    decreases evs.len(),
{
    if evs.len() > 0 {
        lemma_replay_wf(config, evs.drop_last());
        lemma_step_preserves_wf(replay(initial(config), evs.drop_last()), evs.last());
    }
}

/// Events never change the build configuration.
pub proof fn lemma_replay_keeps_config(s: BootState, evs: Seq<Event>)
    ensures
        replay(s, evs).config == s.config,
    decreases evs.len(),
{
    if evs.len() > 0 {
        lemma_replay_keeps_config(s, evs.drop_last());
    }
}

/// Whatever events come, the plugins attached begin with deep links,
/// storage, operating-system information and notifications, in that
/// order; biometrics are among them exactly on a mobile platform; a logging
/// plugin is among them only in a debug build, and once the setup hook has
/// succeeded in a debug build it is there at the informational level.
pub proof fn lemma_attached_plugins(config: BuildConfig, evs: Seq<Event>)
    ensures
        ({
            let s = replay(initial(config), evs);
            &&& s.attached.len() >= 4
            &&& s.attached.take(4) == base_plugins()
            &&& s.attached.contains(Plugin::Biometric) <==> config.platform.is_mobile_spec()
            &&& (exists|i: int| 0 <= i < s.attached.len() && s.attached[i] is Log) ==> config.debug
            &&& (config.debug && (s.phase is Ready || s.phase is Running)) ==> s.attached.contains(
                Plugin::Log(LogLevel::Info),
            )
        }),
{
    let s = replay(initial(config), evs);
    lemma_replay_wf(config, evs);
    lemma_replay_keeps_config(initial(config), evs);
    let b = builder_plugins_spec(config.platform);
    let t = setup_plugins_spec(config.debug);
    assert(b.take(4) =~= base_plugins());
    assert(forall|i: int| 0 <= i < b.len() ==> !(b[i] is Log));
    assert(b.contains(Plugin::Biometric) <==> config.platform.is_mobile_spec()) by {
        if config.platform.is_mobile_spec() {
            assert(b[4] == Plugin::Biometric);
        } else {
            assert forall|i: int| 0 <= i < b.len() implies b[i] != Plugin::Biometric by {
                assert(0 <= i < 4);
            }
        }
    }
    if s.phase is Ready || s.phase is Running {
        assert(s.attached == b + t);
        assert(s.attached.take(4) =~= b.take(4));
        assert forall|i: int| b.len() <= i < s.attached.len() implies s.attached[i]
            != Plugin::Biometric && (s.attached[i] is Log ==> config.debug) by {
            assert(s.attached[i] == t[i - b.len()]);
        }
        assert(s.attached.contains(Plugin::Biometric) <==> b.contains(Plugin::Biometric)) by {
            if b.contains(Plugin::Biometric) {
                let j = choose|j: int| 0 <= j < b.len() && b[j] == Plugin::Biometric;
                assert(s.attached[j] == Plugin::Biometric);
            }
            if s.attached.contains(Plugin::Biometric) {
                let j = choose|j: int| 0 <= j < s.attached.len() && s.attached[j] == Plugin::Biometric;
                assert(b[j] == Plugin::Biometric);
            }
        }
        if config.debug {
            assert(s.attached[b.len() as int] == Plugin::Log(LogLevel::Info));
        }
    }
}

/// Along any events from start-up, the setup hook is let run at most once,
/// exactly once if it has been entered at all, and the main loop is only
/// reached after it. Since the events are arbitrary, this holds at every
/// point along the way.
pub proof fn lemma_setup_once_before_loop(config: BuildConfig, evs: Seq<Event>)
    ensures
        setup_count(initial(config), evs) <= 1,
        setup_count(initial(config), evs) == if replay(initial(config), evs).phase is Configuring {
            0nat
        } else {
            1nat
        },
        replay(initial(config), evs).phase is Running ==> setup_count(initial(config), evs) == 1,
    decreases evs.len(),
{
    if evs.len() > 0 {
        lemma_setup_once_before_loop(config, evs.drop_last());
    }
}

/// Once the setup hook has failed, start-up is aborted for good: no later
/// event brings it to the main loop.
pub proof fn lemma_failed_setup_stops(config: BuildConfig, pre: Seq<Event>, post: Seq<Event>)
    requires
        replay(initial(config), pre).phase is SettingUp,
    ensures
        replay(initial(config), pre.push(Event::SetupFinished(false)) + post).phase is Aborted,
    decreases post.len(),
{
    let evs = pre.push(Event::SetupFinished(false)) + post;
    if post.len() == 0 {
        assert(evs =~= pre.push(Event::SetupFinished(false)));
        assert(evs.drop_last() =~= pre);
    } else {
        lemma_failed_setup_stops(config, pre, post.drop_last());
        assert(evs.drop_last() =~= pre.push(Event::SetupFinished(false)) + post.drop_last());
    }
}

} // verus!
