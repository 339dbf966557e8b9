//! The settings window: the one window this shell creates, under a fixed name.

use vstd::prelude::*;
use vstd::string::*;

verus! {

/// What a window is created with. Sizes are in logical units.
#[derive(Debug, PartialEq, Eq)]
pub struct WindowConfig {
    /// The name under which the host's registry holds the window.
    pub label: String,
    /// The page of the bundled front-end that the window loads.
    pub app_path: String,
    pub title: String,
    pub inner_width: u32,
    pub inner_height: u32,
    pub minimizable: bool,
    pub resizable: bool,
    /// Whether the window is on screen as soon as it is created.
    pub visible: bool,
}

/// What a [`WindowConfig`] holds, as mathematical values.
pub struct WindowConfigView {
    pub label: Seq<char>,
    pub app_path: Seq<char>,
    pub title: Seq<char>,
    pub inner_width: nat,
    pub inner_height: nat,
    pub minimizable: bool,
    pub resizable: bool,
    pub visible: bool,
}

impl View for WindowConfig {
    type V = WindowConfigView;

    open spec fn view(&self) -> WindowConfigView {
        WindowConfigView {
            label: self.label@,
            app_path: self.app_path@,
            title: self.title@,
            inner_width: self.inner_width as nat,
            inner_height: self.inner_height as nat,
            minimizable: self.minimizable,
            resizable: self.resizable,
            visible: self.visible,
        }
    }
}

/// The name reserved for the settings window.
pub open spec fn settings_label() -> Seq<char> {
    "settings"@
}

/// The settings window as it is created: 800 by 350, of fixed size, titled
/// "Settings", showing the front-end's entry page, and hidden until shown.
pub open spec fn settings_window_view() -> WindowConfigView {
    WindowConfigView {
        label: settings_label(),
        app_path: "index.html"@,
        title: "Settings"@,
        inner_width: 800,
        inner_height: 350,
        minimizable: false,
        resizable: false,
        visible: false,
    }
}

/// Builds the configuration of the settings window.
pub fn settings_window_config() -> (config: WindowConfig)
    ensures
        config@ == settings_window_view(),
{
    WindowConfig {
        label: String::from_str("settings"),
        app_path: String::from_str("index.html"),
        title: String::from_str("Settings"),
        inner_width: 800,
        inner_height: 350,
        minimizable: false,
        resizable: false,
        visible: false,
    }
}

} // verus!
