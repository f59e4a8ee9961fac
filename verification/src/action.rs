//! What the tray controller asks its host to do.

use vstd::prelude::*;

verus! {

/// Name under which the main window is registered with the host.
pub const MAIN_WINDOW_LABEL: &'static str = "ad4min";

/// Entry resource that the main window loads.
pub const MAIN_WINDOW_URL: &'static str = "index.html";

/// Title bar text of the main window.
pub const MAIN_WINDOW_TITLE: &'static str = "Ad4min UI";

/// Inner width of the main window, in logical units.
pub const MAIN_WINDOW_WIDTH: u32 = 1000;

/// Inner height of the main window, in logical units.
pub const MAIN_WINDOW_HEIGHT: u32 = 700;

/// Severity of a log line.
#[derive(Clone, Copy, Debug, PartialEq, Eq)]
pub enum LogLevel {
    Info,
    Error,
}

/// Everything the host needs to open a window.
#[derive(Clone, Debug, PartialEq, Eq)]
pub struct WindowConfig {
    pub label: String,
    pub url: String,
    pub title: String,
    pub width: u32,
    pub height: u32,
}

/// What a `WindowConfig` stands for in contracts.
pub struct WindowConfigModel {
    pub label: Seq<char>,
    pub url: Seq<char>,
    pub title: Seq<char>,
    pub width: nat,
    pub height: nat,
}

impl View for WindowConfig {
    type V = WindowConfigModel;

    open spec fn view(&self) -> WindowConfigModel {
        WindowConfigModel {
            label: self.label@,
            url: self.url@,
            title: self.title@,
            width: self.width as nat,
            height: self.height as nat,
        }
    }
}

/// The main window as it is created when none exists yet.
pub open spec fn main_window_model() -> WindowConfigModel {
    WindowConfigModel {
        label: MAIN_WINDOW_LABEL@,
        url: MAIN_WINDOW_URL@,
        title: MAIN_WINDOW_TITLE@,
        width: 1000,
        height: 700,
    }
}

/// Builds the description of the main window.
pub fn main_window() -> (config: WindowConfig)
    ensures
        config@ == main_window_model(),
{
    WindowConfig {
        label: MAIN_WINDOW_LABEL.to_owned(),
        url: MAIN_WINDOW_URL.to_owned(),
        title: MAIN_WINDOW_TITLE.to_owned(),
        width: MAIN_WINDOW_WIDTH,
        height: MAIN_WINDOW_HEIGHT,
    }
}

/// One request to the host. The host carries requests out in the order given.
#[derive(Clone, Debug, PartialEq, Eq)]
pub enum TrayAction {
    /// Look up the window registered as `label` and report whether it exists.
    FindWindow { label: String },
    /// Make the window `label` visible and report the outcome.
    ShowWindow { label: String },
    /// Give the window `label` input focus and report the outcome.
    FocusWindow { label: String },
    /// Open a new window and report the outcome.
    CreateWindow { config: WindowConfig },
    /// End the process with the given exit code.
    Exit { code: i32 },
    /// Write one line to the log. Nothing is reported back.
    Log { level: LogLevel, message: String },
}

/// What a `TrayAction` stands for in contracts.
pub enum TrayActionModel {
    FindWindow { label: Seq<char> },
    ShowWindow { label: Seq<char> },
    FocusWindow { label: Seq<char> },
    CreateWindow { config: WindowConfigModel },
    Exit { code: int },
    Log { level: LogLevel, message: Seq<char> },
}

impl View for TrayAction {
    type V = TrayActionModel;

    open spec fn view(&self) -> TrayActionModel {
        match self {
            TrayAction::FindWindow { label } => TrayActionModel::FindWindow { label: label@ },
            TrayAction::ShowWindow { label } => TrayActionModel::ShowWindow { label: label@ },
            TrayAction::FocusWindow { label } => TrayActionModel::FocusWindow { label: label@ },
            TrayAction::CreateWindow { config } => TrayActionModel::CreateWindow { config: config@ },
            TrayAction::Exit { code } => TrayActionModel::Exit { code: *code as int },
            TrayAction::Log { level, message } => TrayActionModel::Log {
                level: *level,
                message: message@,
            },
        }
    }
}

impl TrayActionModel {
    /// The action queries, changes or opens a window.
    pub open spec fn touches_window(self) -> bool {
        self is FindWindow || self is ShowWindow || self is FocusWindow || self is CreateWindow
    }

    /// The action ends the process.
    pub open spec fn ends_process(self) -> bool {
        self is Exit
    }
}

/// The models of a list of actions, in the same order.
pub open spec fn actions_model(actions: Seq<TrayAction>) -> Seq<TrayActionModel> {
    Seq::new(actions.len(), |i: int| actions[i]@)
}

} // verus!
