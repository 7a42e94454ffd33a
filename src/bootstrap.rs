use vstd::prelude::*;
use crate::config::{
    builder_plugins, builder_plugins_spec, setup_plugins, setup_plugins_spec, BuildConfig,
};
use crate::plugin::Plugin;

verus! {

/// How far start-up has come.
#[derive(Clone, Copy, Debug, PartialEq, Eq, Structural)]
pub enum Phase {
    /// The builder holds its plugins; the setup hook has not run.
    Configuring,
    /// The setup hook is attaching its plugins.
    SettingUp,
    /// The setup hook succeeded; the main loop may start.
    Ready,
    /// The main loop has started.
    Running,
    /// The setup hook failed; start-up stops for good.
    Aborted,
}

/// What the host runtime reports to the start-up logic.
#[derive(Clone, Copy, Debug, PartialEq, Eq, Structural)]
pub enum Event {
    /// The runtime calls the setup hook.
    SetupInvoked,
    /// The setup hook's attachments finished, successfully or not.
    SetupFinished(bool),
    /// The runtime is about to enter its main loop.
    LoopStart,
}

/// The abstract state of start-up.
pub struct BootState {
    pub config: BuildConfig,
    pub phase: Phase,
    /// Every plugin attached so far, in attachment order.
    pub attached: Seq<Plugin>,
}

/// The state right after the builder has received its plugins.
pub open spec fn initial(config: BuildConfig) -> BootState {
    BootState {
        config,
        phase: Phase::Configuring,
        attached: builder_plugins_spec(config.platform),
    }
}

/// The effect of one event. An event that does not fit the phase leaves
/// the state as it is.
pub open spec fn step(s: BootState, e: Event) -> BootState {
    match e {
        Event::SetupInvoked => if s.phase is Configuring {
            BootState { phase: Phase::SettingUp, ..s }
        } else {
            s
        },
        Event::SetupFinished(ok) => if s.phase is SettingUp {
            if ok {
                BootState {
                    phase: Phase::Ready,
                    attached: s.attached + setup_plugins_spec(s.config.debug),
                    ..s
                }
            } else {
                BootState { phase: Phase::Aborted, ..s }
            }
        } else {
            s
        },
        Event::LoopStart => if s.phase is Ready {
            BootState { phase: Phase::Running, ..s }
        } else {
            s
        },
    }
}

/// The state reached from `s` after the events of `evs`, first to last.
pub open spec fn replay(s: BootState, evs: Seq<Event>) -> BootState
    decreases evs.len(),
{
    if evs.len() == 0 {
        s
    } else {
        step(replay(s, evs.drop_last()), evs.last())
    }
}

/// How many times the setup hook was let run along `evs` from `s`.
pub open spec fn setup_count(s: BootState, evs: Seq<Event>) -> nat
    decreases evs.len(),
{
    if evs.len() == 0 {
        0
    } else {
        let before = replay(s, evs.drop_last());
        setup_count(s, evs.drop_last()) + if evs.last() is SetupInvoked
            && before.phase is Configuring {
            1nat
        } else {
            0nat
        }
    }
}

/// A state that start-up can be in: the builder's plugins come first, and
/// the setup hook's plugins follow once the hook has succeeded.
pub open spec fn wf(s: BootState) -> bool {
    if s.phase is Ready || s.phase is Running {
        s.attached == builder_plugins_spec(s.config.platform) + setup_plugins_spec(
            s.config.debug,
        )
    } else {
        s.attached == builder_plugins_spec(s.config.platform)
    }
}

/// Start-up of one application, driven by the host runtime's events.
pub struct Bootstrap {
    config: BuildConfig,
    phase: Phase,
    attached: Vec<Plugin>,
}

impl View for Bootstrap {
    type V = BootState;

    closed spec fn view(&self) -> BootState {
        BootState { config: self.config, phase: self.phase, attached: self.attached@ }
    }
}

impl Bootstrap {
    /// Start-up for `config`, with the builder's plugins attached.
    pub fn new(config: BuildConfig) -> (r: Self)
        ensures
            r@ == initial(config),
            wf(r@),
    {
        Bootstrap { config, phase: Phase::Configuring, attached: builder_plugins(config.platform) }
    }

    pub fn config(&self) -> (r: BuildConfig)
        ensures
            r == self@.config,
    {
        self.config
    }

    pub fn phase(&self) -> (r: Phase)
        ensures
            r == self@.phase,
    {
        self.phase
    }

    /// Every plugin attached so far, in attachment order.
    pub fn attached(&self) -> (r: &Vec<Plugin>)
        ensures
            r@ == self@.attached,
    {
        &self.attached
    }

    /// The runtime calls the setup hook. The first call, before anything
    /// else has happened, returns the plugins that the hook must attach;
    /// any other call returns `None` and changes nothing.
    pub fn begin_setup(&mut self) -> (r: Option<Vec<Plugin>>)
        ensures
            final(self)@ == step(old(self)@, Event::SetupInvoked),
            r is Some <==> old(self)@.phase is Configuring,
            r matches Some(v) ==> v@ == setup_plugins_spec(old(self)@.config.debug),
    {
        if self.phase == Phase::Configuring {
            self.phase = Phase::SettingUp;
            Some(setup_plugins(self.config.debug))
        } else {
            None
        }
    }

    /// The setup hook's attachments finished; `ok` says whether they
    /// succeeded. Returns whether start-up goes on: only after a successful
    /// hook that is under way. A failure aborts start-up.
    pub fn finish_setup(&mut self, ok: bool) -> (r: bool)
        ensures
            final(self)@ == step(old(self)@, Event::SetupFinished(ok)),
            r == (old(self)@.phase is SettingUp && ok),
    {
        if self.phase == Phase::SettingUp {
            if ok {
                let mut extra = setup_plugins(self.config.debug);
                self.attached.append(&mut extra);
                self.phase = Phase::Ready;
                true
            } else {
                self.phase = Phase::Aborted;
                false
            }
        } else {
            false
        }
    }

    /// The runtime is about to enter its main loop. Returns whether it may:
    /// only once the setup hook has succeeded, and only once.
    pub fn start_loop(&mut self) -> (r: bool)
        ensures
            final(self)@ == step(old(self)@, Event::LoopStart),
            r == (old(self)@.phase is Ready),
    {
        if self.phase == Phase::Ready {
            self.phase = Phase::Running;
            true
        } else {
            false
        }
    }

    /// Hands one event to the matching method. Returns whether the event
    /// moved start-up forward; an event that does not fit the phase, or a
    /// failed setup hook, gives `false`.
    pub fn on_event(&mut self, e: Event) -> (r: bool)
        ensures
            final(self)@ == step(old(self)@, e),
            r == (step(old(self)@, e).phase != old(self)@.phase && !(step(
                old(self)@,
                e,
            ).phase is Aborted)),
    {
        match e {
            Event::SetupInvoked => self.begin_setup().is_some(),
            Event::SetupFinished(ok) => self.finish_setup(ok),
            Event::LoopStart => self.start_loop(),
        }
    }
}

} // verus!
