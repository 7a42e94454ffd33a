use astn_shell::{
    builder_plugins, setup_plugins, BuildConfig, Bootstrap, Event, LogLevel, Phase, Platform,
    Plugin,
};

const BASE: [Plugin; 4] = [Plugin::DeepLink, Plugin::Store, Plugin::Os, Plugin::Notification];

fn with_biometric() -> Vec<Plugin> {
    let mut v = BASE.to_vec();
    v.push(Plugin::Biometric);
    v
}

#[test]
fn base_plugins_come_first_in_order_on_every_platform() {
    for p in [Platform::Linux, Platform::Macos, Platform::Windows, Platform::Android, Platform::Ios] {
        let v = builder_plugins(p);
        assert_eq!(&v[..4], &BASE[..]);
        assert!(!v.iter().any(|x| matches!(x, Plugin::Log(_))));
    }
}

#[test]
fn desktop_builder_has_no_biometric() {
    for p in [Platform::Linux, Platform::Macos, Platform::Windows] {
        assert_eq!(builder_plugins(p), BASE.to_vec());
        assert!(!p.is_mobile());
    }
}

#[test]
fn mobile_builder_adds_biometric_last() {
    for p in [Platform::Android, Platform::Ios] {
        assert_eq!(builder_plugins(p), with_biometric());
        assert!(p.is_mobile());
    }
}

#[test]
fn debug_setup_attaches_log_at_info() {
    assert_eq!(setup_plugins(true), vec![Plugin::Log(LogLevel::Info)]);
}

#[test]
fn release_setup_attaches_nothing() {
    assert!(setup_plugins(false).is_empty());
}

#[test]
fn new_bootstrap_is_configuring_with_builder_plugins() {
    let c = BuildConfig { platform: Platform::Ios, debug: false };
    let b = Bootstrap::new(c);
    assert_eq!(b.phase(), Phase::Configuring);
    assert_eq!(b.config(), c);
    assert_eq!(b.attached(), &with_biometric());
}

#[test]
fn release_desktop_scenario() {
    let mut b = Bootstrap::new(BuildConfig { platform: Platform::Linux, debug: false });
    assert_eq!(b.attached(), &BASE.to_vec());
    let extra = b.begin_setup().expect("setup runs once");
    assert!(extra.is_empty());
    assert!(b.finish_setup(true));
    assert!(b.start_loop());
    assert_eq!(b.phase(), Phase::Running);
    assert_eq!(b.attached(), &BASE.to_vec());
}

#[test]
fn debug_mobile_scenario() {
    let mut b = Bootstrap::new(BuildConfig { platform: Platform::Android, debug: true });
    assert_eq!(b.attached(), &with_biometric());
    let extra = b.begin_setup().expect("setup runs once");
    assert_eq!(extra, vec![Plugin::Log(LogLevel::Info)]);
    assert!(b.finish_setup(true));
    assert!(b.start_loop());
    assert_eq!(b.phase(), Phase::Running);
    let mut all = with_biometric();
    all.push(Plugin::Log(LogLevel::Info));
    assert_eq!(b.attached(), &all);
}

#[test]
fn setup_runs_at_most_once() {
    let mut b = Bootstrap::new(BuildConfig { platform: Platform::Windows, debug: true });
    assert!(b.begin_setup().is_some());
    assert!(b.begin_setup().is_none());
    assert_eq!(b.phase(), Phase::SettingUp);
    assert!(b.finish_setup(true));
    assert!(b.begin_setup().is_none());
    assert!(b.start_loop());
    assert!(b.begin_setup().is_none());
    assert!(!b.start_loop());
    assert_eq!(b.phase(), Phase::Running);
}

#[test]
fn loop_does_not_start_before_setup() {
    let mut b = Bootstrap::new(BuildConfig { platform: Platform::Macos, debug: false });
    assert!(!b.start_loop());
    assert_eq!(b.phase(), Phase::Configuring);
    assert!(!b.finish_setup(true));
    assert_eq!(b.phase(), Phase::Configuring);
    assert!(b.begin_setup().is_some());
    assert!(!b.start_loop());
    assert_eq!(b.phase(), Phase::SettingUp);
}

#[test]
fn failed_setup_aborts_startup() {
    let mut b = Bootstrap::new(BuildConfig { platform: Platform::Android, debug: true });
    assert!(b.begin_setup().is_some());
    assert!(!b.finish_setup(false));
    assert_eq!(b.phase(), Phase::Aborted);
    assert!(!b.start_loop());
    assert!(b.begin_setup().is_none());
    assert!(!b.finish_setup(true));
    assert_eq!(b.phase(), Phase::Aborted);
    assert_eq!(b.attached(), &with_biometric());
}

#[test]
fn events_drive_the_same_transitions() {
    let mut b = Bootstrap::new(BuildConfig { platform: Platform::Ios, debug: true });
    assert!(!b.on_event(Event::LoopStart));
    assert!(b.on_event(Event::SetupInvoked));
    assert!(!b.on_event(Event::SetupInvoked));
    assert!(b.on_event(Event::SetupFinished(true)));
    assert_eq!(b.phase(), Phase::Ready);
    assert!(b.on_event(Event::LoopStart));
    assert_eq!(b.phase(), Phase::Running);
    assert_eq!(b.attached().last(), Some(&Plugin::Log(LogLevel::Info)));

    let mut f = Bootstrap::new(BuildConfig { platform: Platform::Linux, debug: false });
    assert!(f.on_event(Event::SetupInvoked));
    assert!(!f.on_event(Event::SetupFinished(false)));
    assert_eq!(f.phase(), Phase::Aborted);
    assert!(!f.on_event(Event::LoopStart));
}
