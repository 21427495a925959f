use desktop_shell::plugins::{builder_plugins, LogFilter, Plugin};
use desktop_shell::sequencer::{Action, Event, Phase, Setup};
use desktop_shell::setup::{setup_plan, Material, SetupStep, StartupError, MAIN_WINDOW_LABEL};

const LOG_INFO: SetupStep = SetupStep::AttachPlugin(Plugin::Log { min_level: LogFilter::Info });

fn attached_plugins(debug: bool, native_menu_bar: bool) -> Vec<Plugin> {
    let mut all = builder_plugins();
    for step in setup_plan(debug, native_menu_bar) {
        if let SetupStep::AttachPlugin(p) = step {
            all.push(p);
        }
    }
    all
}

#[test]
fn debug_build_has_info_logger() {
    for mac in [false, true] {
        let plugins = attached_plugins(true, mac);
        assert!(plugins.contains(&Plugin::Log { min_level: LogFilter::Info }));
    }
}

#[test]
fn release_build_has_no_logger() {
    for mac in [false, true] {
        let plugins = attached_plugins(false, mac);
        assert!(!plugins.iter().any(|p| matches!(p, Plugin::Log { .. })));
    }
}

#[test]
fn dialog_plugin_in_every_build() {
    assert_eq!(builder_plugins(), vec![Plugin::Dialog]);
    for debug in [false, true] {
        for mac in [false, true] {
            assert!(attached_plugins(debug, mac).contains(&Plugin::Dialog));
        }
    }
}

#[test]
fn plan_for_each_build_and_platform() {
    assert_eq!(setup_plan(false, false), vec![]);
    assert_eq!(setup_plan(true, false), vec![LOG_INFO]);
    let mac = vec![
        SetupStep::RetargetWindowsMenu,
        SetupStep::LocateMainWindow,
        SetupStep::ApplyVibrancy(Material::Sidebar),
    ];
    assert_eq!(setup_plan(false, true), mac);
    let mut debug_mac = vec![LOG_INFO];
    debug_mac.extend(mac);
    assert_eq!(setup_plan(true, true), debug_mac);
}

#[test]
fn main_window_label_constant() {
    assert_eq!(MAIN_WINDOW_LABEL, "main");
}

#[test]
fn full_run_proceeds_after_every_step() {
    let mut s = Setup::new(true, true);
    assert_eq!(s.phase(), Phase::Idle);
    assert_eq!(s.handle(Event::Begin), Action::Perform(LOG_INFO));
    assert_eq!(s.phase(), Phase::Running);
    assert_eq!(s.handle(Event::Succeeded), Action::Perform(SetupStep::RetargetWindowsMenu));
    assert_eq!(s.handle(Event::Succeeded), Action::Perform(SetupStep::LocateMainWindow));
    assert_eq!(
        s.handle(Event::Succeeded),
        Action::Perform(SetupStep::ApplyVibrancy(Material::Sidebar))
    );
    assert_eq!(s.handle(Event::Succeeded), Action::Proceed);
    assert_eq!(s.phase(), Phase::Finished);
}

#[test]
fn empty_plan_proceeds_at_once() {
    let mut s = Setup::new(false, false);
    assert_eq!(s.handle(Event::Begin), Action::Proceed);
    assert_eq!(s.phase(), Phase::Finished);
}

#[test]
fn missing_main_window_aborts_startup() {
    let mut s = Setup::new(false, true);
    assert_eq!(s.handle(Event::Begin), Action::Perform(SetupStep::RetargetWindowsMenu));
    assert_eq!(s.handle(Event::Succeeded), Action::Perform(SetupStep::LocateMainWindow));
    assert_eq!(s.handle(Event::Failed), Action::Abort(StartupError::MainWindowMissing));
    assert_eq!(s.phase(), Phase::Aborted(StartupError::MainWindowMissing));
    assert_eq!(s.handle(Event::Succeeded), Action::Ignore);
    assert_eq!(s.phase(), Phase::Aborted(StartupError::MainWindowMissing));
}

#[test]
fn log_plugin_failure_aborts_startup() {
    let mut s = Setup::new(true, false);
    assert_eq!(s.handle(Event::Begin), Action::Perform(LOG_INFO));
    assert_eq!(s.handle(Event::Failed), Action::Abort(StartupError::LogPlugin));
    assert_eq!(s.phase(), Phase::Aborted(StartupError::LogPlugin));
}

#[test]
fn vibrancy_failure_aborts_startup() {
    let mut s = Setup::new(false, true);
    s.handle(Event::Begin);
    s.handle(Event::Succeeded);
    s.handle(Event::Succeeded);
    assert_eq!(s.handle(Event::Failed), Action::Abort(StartupError::Vibrancy));
    assert_eq!(s.phase(), Phase::Aborted(StartupError::Vibrancy));
}

#[test]
fn menu_retargeting_failure_is_silent() {
    let mut s = Setup::new(false, true);
    s.handle(Event::Begin);
    assert_eq!(s.handle(Event::Failed), Action::Perform(SetupStep::LocateMainWindow));
    assert_eq!(s.phase(), Phase::Running);
}

#[test]
fn setup_is_entered_once() {
    let mut s = Setup::new(false, false);
    assert_eq!(s.handle(Event::Begin), Action::Proceed);
    assert_eq!(s.handle(Event::Begin), Action::Ignore);
    assert_eq!(s.phase(), Phase::Finished);

    let mut r = Setup::new(true, true);
    r.handle(Event::Begin);
    assert_eq!(r.handle(Event::Begin), Action::Ignore);
    assert_eq!(r.phase(), Phase::Running);
}

#[test]
fn reports_before_begin_are_ignored() {
    let mut s = Setup::new(true, true);
    assert_eq!(s.handle(Event::Succeeded), Action::Ignore);
    assert_eq!(s.handle(Event::Failed), Action::Ignore);
    assert_eq!(s.phase(), Phase::Idle);
}
