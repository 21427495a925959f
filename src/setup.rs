//! The steps of the one-time setup run and the plugin set that results.

use vstd::prelude::*;
use crate::plugins::{LogFilter, Plugin, build_time_plugins, debug_log_plugin};

verus! {

/// Identifier under which the host registers the main window.
pub const MAIN_WINDOW_LABEL: &'static str = "main";

/// Translucent background material of a window.
#[derive(PartialEq, Eq, Structural, Clone, Copy, Debug)]
pub enum Material {
    /// The material of a sidebar.
    Sidebar,
}

/// A fatal start-up failure: the application must not launch.
#[derive(PartialEq, Eq, Structural, Clone, Copy, Debug)]
pub enum StartupError {
    /// The logging plugin could not be attached to the running host.
    LogPlugin,
    /// No window is registered under the main window's label.
    MainWindowMissing,
    /// The visual-effect material could not be applied to the main window.
    Vibrancy,
}

/// One piece of work of the setup run, performed by the host side.
#[derive(PartialEq, Eq, Structural, Clone, Copy, Debug)]
pub enum SetupStep {
    /// Attach a plugin to the running host.
    AttachPlugin(Plugin),
    /// Designate the submenu titled "Window" as the windows menu, if any.
    RetargetWindowsMenu,
    /// Look up the window registered under the main window's label.
    LocateMainWindow,
    /// Apply a material to the main window, with no corner radius and no
    /// state override.
    ApplyVibrancy(Material),
}

/// What failure of a step means: the fatal error it raises, or `None` for a
/// step whose failure is a silent no-op.
pub open spec fn failure_of(step: SetupStep) -> Option<StartupError> {
    match step {
        SetupStep::AttachPlugin(_) => Some(StartupError::LogPlugin),
        SetupStep::RetargetWindowsMenu => None,
        SetupStep::LocateMainWindow => Some(StartupError::MainWindowMissing),
        SetupStep::ApplyVibrancy(_) => Some(StartupError::Vibrancy),
    }
}

/// The steps of setup, in order: the logging plugin in a debug build, then
/// on the platform with a native menu bar the menu and window treatment.
pub open spec fn planned_steps(debug: bool, native_menu_bar: bool) -> Seq<SetupStep> {
    (if debug {
        seq![SetupStep::AttachPlugin(debug_log_plugin())]
    } else {
        Seq::empty()
    }) + (if native_menu_bar {
        seq![
            SetupStep::RetargetWindowsMenu,
            SetupStep::LocateMainWindow,
            SetupStep::ApplyVibrancy(Material::Sidebar),
        ]
    } else {
        Seq::empty()
    })
}

/// Every plugin that the host ends up with: those given to the builder and
/// those that setup attaches.
pub open spec fn host_plugins(debug: bool, native_menu_bar: bool) -> Set<Plugin> {
    Set::new(
        |p: Plugin|
            build_time_plugins().contains(p) || planned_steps(debug, native_menu_bar).contains(
                SetupStep::AttachPlugin(p),
            ),
    )
}

/// Returns the steps of setup for a build (`debug`) and a platform
/// (`native_menu_bar`).
pub fn setup_plan(debug: bool, native_menu_bar: bool) -> (r: Vec<SetupStep>)
    ensures
        r@ == planned_steps(debug, native_menu_bar),
{
    let mut r: Vec<SetupStep> = Vec::new();
    if debug {
        r.push(SetupStep::AttachPlugin(Plugin::Log { min_level: LogFilter::Info }));
    }
    if native_menu_bar {
        r.push(SetupStep::RetargetWindowsMenu);
        r.push(SetupStep::LocateMainWindow);
        r.push(SetupStep::ApplyVibrancy(Material::Sidebar));
    }
    assert(r@ =~= planned_steps(debug, native_menu_bar));
    r
}

/// A debug build's host has the logging plugin, filtered to informational
/// messages and above; a release build's host has no logging plugin at all.
pub proof fn lemma_log_plugin_only_in_debug(debug: bool, native_menu_bar: bool)
    ensures
        debug ==> host_plugins(debug, native_menu_bar).contains(debug_log_plugin()),
        !debug ==> forall|p: Plugin| #[trigger]
            host_plugins(debug, native_menu_bar).contains(p) ==> !(p is Log),
{
    let plan = planned_steps(debug, native_menu_bar);
    if debug {
        assert(plan[0] == SetupStep::AttachPlugin(debug_log_plugin()));
        assert(plan.contains(SetupStep::AttachPlugin(debug_log_plugin())));
    } else {
        assert forall|p: Plugin| #[trigger]
            host_plugins(debug, native_menu_bar).contains(p) implies !(p is Log) by {
            assert(plan =~= planned_steps(false, native_menu_bar));
        }
    }
}

/// The host has the dialog plugin in every build and on every platform.
pub proof fn lemma_dialog_always_present(debug: bool, native_menu_bar: bool)
    ensures
        host_plugins(debug, native_menu_bar).contains(Plugin::Dialog),
{
    assert(build_time_plugins()[0] == Plugin::Dialog);
    assert(build_time_plugins().contains(Plugin::Dialog));
}

} // verus!
