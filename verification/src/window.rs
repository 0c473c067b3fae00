use vstd::prelude::*;

use crate::platform::Platform;

verus! {

/// Initial width of the main window on desktop builds, in logical pixels.
pub const INITIAL_WIDTH: u32 = 1024;

/// Initial height of the main window on desktop builds, in logical pixels.
pub const INITIAL_HEIGHT: u32 = 768;

/// Minimum width of the main window on desktop builds, in logical pixels.
pub const MIN_WIDTH: u32 = 400;

/// Minimum height of the main window on desktop builds, in logical pixels.
pub const MIN_HEIGHT: u32 = 300;

/// How the title bar of the main window is drawn.
#[derive(Clone, Copy, PartialEq, Eq, Structural, Debug)]
pub enum TitleBarStyle {
    /// The ordinary title bar above the window content: the framework
    /// default, and what every build other than macOS uses.
    Standard,
    /// The macOS style where the window content extends under the title
    /// bar chrome.
    Overlay,
}

/// Size constraints for the main window, in logical pixels.
#[derive(Clone, Copy, PartialEq, Eq, Structural, Debug)]
pub struct WindowGeometry {
    /// Initial inner width.
    pub width: u32,
    /// Initial inner height.
    pub height: u32,
    /// Smallest inner width the user may resize to.
    pub min_width: u32,
    /// Smallest inner height the user may resize to.
    pub min_height: u32,
}

/// Everything the main window is built from, as plain data.
///
/// A `None` in an optional field means the corresponding property is not
/// declared at all and the framework's own default applies.
pub struct WindowConfig {
    /// The label identifying the window within the application.
    pub label: String,
    /// The visible window title.
    pub title: Option<String>,
    /// How the title bar is drawn.
    pub title_bar: TitleBarStyle,
    /// Initial and minimum inner size.
    pub geometry: Option<WindowGeometry>,
    /// Whether the window declares itself resizable.
    pub resizable: Option<bool>,
    /// Whether the window asks to be centered on the screen.
    pub centered: bool,
}

/// The mathematical image of a [`WindowConfig`]: strings as character
/// sequences, everything else as itself.
pub struct WindowConfigView {
    pub label: Seq<char>,
    pub title: Option<Seq<char>>,
    pub title_bar: TitleBarStyle,
    pub geometry: Option<WindowGeometry>,
    pub resizable: Option<bool>,
    pub centered: bool,
}

impl View for WindowConfig {
    type V = WindowConfigView;

    open spec fn view(&self) -> WindowConfigView {
        WindowConfigView {
            label: self.label@,
            title: match self.title {
                Some(t) => Some(t@),
                None => None,
            },
            title_bar: self.title_bar,
            geometry: self.geometry,
            resizable: self.resizable,
            centered: self.centered,
        }
    }
}

/// The size constraints every desktop window is built with.
pub open spec fn spec_desktop_geometry() -> WindowGeometry {
    WindowGeometry {
        width: INITIAL_WIDTH,
        height: INITIAL_HEIGHT,
        min_width: MIN_WIDTH,
        min_height: MIN_HEIGHT,
    }
}

/// The main window's configuration for a given build target.
///
/// macOS gets an overlay title bar with an empty title; other desktops get
/// a standard title bar with the application's name as title; mobile gets
/// the framework defaults for everything but the label.
pub open spec fn window_config_for(platform: Platform) -> WindowConfigView {
    match platform {
        Platform::MacOs => WindowConfigView {
            label: "main"@,
            title: Some(""@),
            title_bar: TitleBarStyle::Overlay,
            geometry: Some(spec_desktop_geometry()),
            resizable: Some(true),
            centered: true,
        },
        Platform::OtherDesktop => WindowConfigView {
            label: "main"@,
            title: Some("KC Songbook"@),
            title_bar: TitleBarStyle::Standard,
            geometry: Some(spec_desktop_geometry()),
            resizable: Some(true),
            centered: true,
        },
        Platform::Mobile => WindowConfigView {
            label: "main"@,
            title: None,
            title_bar: TitleBarStyle::Standard,
            geometry: None,
            resizable: None,
            centered: false,
        },
    }
}

/// Builds the main window's configuration record for a build target.
pub fn window_config(platform: Platform) -> (c: WindowConfig)
    ensures
        c@ == window_config_for(platform),
{
    match platform {
        Platform::MacOs => WindowConfig {
            label: String::from_str("main"),
            title: Some(String::from_str("")),
            title_bar: TitleBarStyle::Overlay,
            geometry: Some(desktop_geometry()),
            resizable: Some(true),
            centered: true,
        },
        Platform::OtherDesktop => WindowConfig {
            label: String::from_str("main"),
            title: Some(String::from_str("KC Songbook")),
            title_bar: TitleBarStyle::Standard,
            geometry: Some(desktop_geometry()),
            resizable: Some(true),
            centered: true,
        },
        Platform::Mobile => WindowConfig {
            label: String::from_str("main"),
            title: None,
            title_bar: TitleBarStyle::Standard,
            geometry: None,
            resizable: None,
            centered: false,
        },
    }
}

/// Builds the size constraints shared by all desktop windows.
pub fn desktop_geometry() -> (g: WindowGeometry)
    ensures
        g == spec_desktop_geometry(),
{
    WindowGeometry {
        width: INITIAL_WIDTH,
        height: INITIAL_HEIGHT,
        min_width: MIN_WIDTH,
        min_height: MIN_HEIGHT,
    }
}

/// On every desktop build, the initial window size is 1024 by 768 and the
/// minimum size is 400 by 300 logical pixels.
pub proof fn lemma_desktop_geometry(platform: Platform)
    requires
        platform.spec_is_desktop(),
    ensures
        window_config_for(platform).geometry == Some(spec_desktop_geometry()),
        spec_desktop_geometry().width == 1024,
        spec_desktop_geometry().height == 768,
        spec_desktop_geometry().min_width == 400,
        spec_desktop_geometry().min_height == 300,
{
}

} // verus!
