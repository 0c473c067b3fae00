//! Startup configuration for the KC Songbook desktop shell.
//!
//! The application itself is a thin wrapper around a window-manager
//! framework: at startup it registers a fixed set of plugins and builds a
//! single main window whose cosmetic details (title, title-bar style, size
//! constraints) depend on the build target. All of those decisions are
//! plain data, so they live here as verified configuration-selection
//! functions; the unverified shell consumes the records this crate returns
//! and hands them to the framework.

mod platform;
mod startup;
mod window;

pub use platform::Platform;
pub use startup::LogLevel;
pub use startup::Plugin;
pub use startup::StartupConfig;
pub use startup::StartupConfigView;
pub use startup::lemma_three_plugins;
pub use startup::startup_config;
pub use startup::startup_config_for;
pub use startup::startup_failure_message;
pub use startup::startup_plugins;
pub use window::INITIAL_HEIGHT;
pub use window::INITIAL_WIDTH;
pub use window::MIN_HEIGHT;
pub use window::MIN_WIDTH;
pub use window::TitleBarStyle;
pub use window::WindowConfig;
pub use window::WindowConfigView;
pub use window::WindowGeometry;
pub use window::desktop_geometry;
pub use window::lemma_desktop_geometry;
pub use window::spec_desktop_geometry;
pub use window::window_config;
pub use window::window_config_for;
