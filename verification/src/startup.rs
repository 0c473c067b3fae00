use vstd::prelude::*;

use crate::platform::Platform;
use crate::window::WindowConfig;
use crate::window::WindowConfigView;
use crate::window::window_config;
use crate::window::window_config_for;

verus! {

/// The threshold below which log records are discarded, from most to least
/// severe; `Off` discards everything.
#[derive(Clone, Copy, PartialEq, Eq, Structural, Debug)]
pub enum LogLevel {
    Off,
    Error,
    Warn,
    Info,
    Debug,
    Trace,
}

/// A framework plugin the application registers at startup.
#[derive(Clone, Copy, PartialEq, Eq, Structural, Debug)]
pub enum Plugin {
    /// Native file and message dialogs.
    Dialog,
    /// Outbound HTTP requests.
    Http,
    /// Log collection, filtered at the given level.
    Log { level: LogLevel },
}

/// Everything startup declares before handing control to the framework's
/// event loop: the plugins to register, in order, and the main window.
pub struct StartupConfig {
    /// Plugins, registered front to back.
    pub plugins: Vec<Plugin>,
    /// The main window's configuration.
    pub window: WindowConfig,
}

/// The mathematical image of a [`StartupConfig`].
pub struct StartupConfigView {
    pub plugins: Seq<Plugin>,
    pub window: WindowConfigView,
}

impl View for StartupConfig {
    type V = StartupConfigView;

    open spec fn view(&self) -> StartupConfigView {
        StartupConfigView { plugins: self.plugins@, window: self.window@ }
    }
}

/// The plugins every build registers, in registration order: dialogs,
/// HTTP, then logging at the informational threshold.
pub open spec fn startup_plugins() -> Seq<Plugin> {
    seq![Plugin::Dialog, Plugin::Http, Plugin::Log { level: LogLevel::Info }]
}

/// The full startup configuration for a given build target: the plugin
/// list is the same everywhere, the window varies.
pub open spec fn startup_config_for(platform: Platform) -> StartupConfigView {
    StartupConfigView { plugins: startup_plugins(), window: window_config_for(platform) }
}

/// Builds the full startup configuration for a build target.
pub fn startup_config(platform: Platform) -> (c: StartupConfig)
    ensures
        c@ == startup_config_for(platform),
{
    let mut plugins: Vec<Plugin> = Vec::new();
    plugins.push(Plugin::Dialog);
    plugins.push(Plugin::Http);
    plugins.push(Plugin::Log { level: LogLevel::Info });
    proof {
        assert(plugins@ =~= startup_plugins());
    }
    let c = StartupConfig { plugins, window: window_config(platform) };
    proof {
        assert(c@ =~= startup_config_for(platform));
    }
    c
}

/// The diagnostic the process aborts with if the framework fails to start.
pub fn startup_failure_message() -> (m: &'static str)
    ensures
        m@ == "error while running tauri application"@,
{
    "error while running tauri application"
}

/// Startup registers exactly three plugins, the same ones in the same
/// order, regardless of the build target.
pub proof fn lemma_three_plugins(platform: Platform)
    ensures
        startup_config_for(platform).plugins.len() == 3,
        startup_config_for(platform).plugins == seq![
            Plugin::Dialog,
            Plugin::Http,
            Plugin::Log { level: LogLevel::Info },
        ],
{
}

} // verus!
