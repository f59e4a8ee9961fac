//! What a click on the tray leads to.
//!
//! A click is handled in rounds. `handle_system_tray_event` opens the first
//! round; while something is pending the host carries out the actions of the
//! round, then hands the reply to `resume_tray_event` for the next one.

use vstd::prelude::*;
use vstd::string::StringExecFns;
use crate::action::{
    actions_model, main_window, main_window_model, LogLevel, TrayAction, TrayActionModel,
    MAIN_WINDOW_LABEL,
};
use crate::menu::{QUIT_ITEM_ID, SHOW_ITEM_ID};

verus! {

/// Logged when a click reports an identifier that no menu item carries.
pub const UNDEFINED_EVENT_MESSAGE: &'static str = "Event is not defined.";

/// Logged, followed by the host's report, once the main window was opened.
pub const CREATING_WINDOW_MESSAGE: &'static str = "Creating ad4min UI ";

/// Logged, followed by the host's report, when the main window could not be shown.
pub const SHOW_FAILED_MESSAGE: &'static str = "Failed to show ad4min UI: ";

/// Logged, followed by the host's report, when the main window could not be focused.
pub const FOCUS_FAILED_MESSAGE: &'static str = "Failed to focus ad4min UI: ";

/// The reply that the handler waits for.
#[derive(Clone, Copy, Debug, PartialEq, Eq)]
pub enum Pending {
    /// Nothing: the click is dealt with.
    Nothing,
    /// Whether the main window exists.
    Lookup,
    /// The outcome of showing the main window.
    Show,
    /// The outcome of focusing the main window.
    Focus,
    /// The outcome of opening the main window.
    Create,
}

/// What the host reports after carrying out a round.
#[derive(Clone, Debug, PartialEq, Eq)]
pub enum HostReply {
    /// Answer to `FindWindow`.
    Window { found: bool },
    /// Answer to `ShowWindow`, `FocusWindow` and `CreateWindow`; `detail` is
    /// the host's own account of what happened.
    Outcome { ok: bool, detail: String },
}

/// What a `HostReply` stands for in contracts.
pub enum HostReplyModel {
    Window { found: bool },
    Outcome { ok: bool, detail: Seq<char> },
}

impl View for HostReply {
    type V = HostReplyModel;

    open spec fn view(&self) -> HostReplyModel {
        match self {
            HostReply::Window { found } => HostReplyModel::Window { found: *found },
            HostReply::Outcome { ok, detail } => HostReplyModel::Outcome {
                ok: *ok,
                detail: detail@,
            },
        }
    }
}

/// One round: the actions to carry out, and the reply awaited after them.
#[derive(Clone, Debug, PartialEq, Eq)]
pub struct TrayStep {
    pub pending: Pending,
    pub actions: Vec<TrayAction>,
}

/// What a `TrayStep` stands for in contracts.
pub struct TrayStepModel {
    pub pending: Pending,
    pub actions: Seq<TrayActionModel>,
}

impl View for TrayStep {
    type V = TrayStepModel;

    open spec fn view(&self) -> TrayStepModel {
        TrayStepModel { pending: self.pending, actions: actions_model(self.actions@) }
    }
}

/// The first round of a click that reports `id`: the show item asks for the
/// main window to be looked up, the quit item ends the process with exit
/// code 0, and anything else leaves an error line.
pub open spec fn dispatch(id: Seq<char>) -> TrayStepModel {
    if id == SHOW_ITEM_ID@ {
        TrayStepModel {
            pending: Pending::Lookup,
            actions: seq![TrayActionModel::FindWindow { label: MAIN_WINDOW_LABEL@ }],
        }
    } else if id == QUIT_ITEM_ID@ {
        TrayStepModel { pending: Pending::Nothing, actions: seq![TrayActionModel::Exit { code: 0 }] }
    } else {
        TrayStepModel {
            pending: Pending::Nothing,
            actions: seq![
                TrayActionModel::Log { level: LogLevel::Error, message: UNDEFINED_EVENT_MESSAGE@ },
            ],
        }
    }
}

/// The log line for an outcome that is only worth a line when it failed.
pub open spec fn failure_log(ok: bool, prefix: Seq<char>, detail: Seq<char>) -> Seq<
    TrayActionModel,
> {
    if ok {
        Seq::empty()
    } else {
        seq![TrayActionModel::Log { level: LogLevel::Error, message: prefix + detail }]
    }
}

/// The round that follows `reply` while `pending` is awaited.
///
/// A window that was found is shown and then focused; a failure of either
/// leaves an error line and stops nothing. A window that was not found is
/// opened, and the host's report of that goes to the log as information,
/// however it went. A reply that does not answer what is pending changes
/// nothing.
pub open spec fn resume(pending: Pending, reply: HostReplyModel) -> TrayStepModel {
    match (pending, reply) {
        (Pending::Lookup, HostReplyModel::Window { found: true }) => TrayStepModel {
            pending: Pending::Show,
            actions: seq![TrayActionModel::ShowWindow { label: MAIN_WINDOW_LABEL@ }],
        },
        (Pending::Lookup, HostReplyModel::Window { found: false }) => TrayStepModel {
            pending: Pending::Create,
            actions: seq![TrayActionModel::CreateWindow { config: main_window_model() }],
        },
        (Pending::Show, HostReplyModel::Outcome { ok, detail }) => TrayStepModel {
            pending: Pending::Focus,
            actions: failure_log(ok, SHOW_FAILED_MESSAGE@, detail)
                + seq![TrayActionModel::FocusWindow { label: MAIN_WINDOW_LABEL@ }],
        },
        (Pending::Focus, HostReplyModel::Outcome { ok, detail }) => TrayStepModel {
            pending: Pending::Nothing,
            actions: failure_log(ok, FOCUS_FAILED_MESSAGE@, detail),
        },
        (Pending::Create, HostReplyModel::Outcome { ok, detail }) => TrayStepModel {
            pending: Pending::Nothing,
            actions: seq![
                TrayActionModel::Log {
                    level: LogLevel::Info,
                    message: CREATING_WINDOW_MESSAGE@ + detail,
                },
            ],
        },
        _ => TrayStepModel { pending, actions: Seq::empty() },
    }
}

/// Appends to `actions` an error line made of `prefix` and `detail`, unless `ok`.
fn push_failure_log(actions: &mut Vec<TrayAction>, ok: bool, prefix: &str, detail: &str)
    ensures
        actions_model(final(actions)@) == actions_model(old(actions)@) + failure_log(
            ok,
            prefix@,
            detail@,
        ),
{
    if !ok {
        let message = prefix.to_owned().concat(detail);
        actions.push(TrayAction::Log { level: LogLevel::Error, message });
    }
    assert(actions_model(actions@) =~= actions_model(old(actions)@) + failure_log(
        ok,
        prefix@,
        detail@,
    ));
}

/// Opens the handling of a click on the tray item `event_id`.
pub fn handle_system_tray_event(event_id: String) -> (step: TrayStep)
    ensures
        step@ == dispatch(event_id@),
{
    let mut actions: Vec<TrayAction> = Vec::new();
    let pending = if event_id == SHOW_ITEM_ID.to_owned() {
        actions.push(TrayAction::FindWindow { label: MAIN_WINDOW_LABEL.to_owned() });
        Pending::Lookup
    } else if event_id == QUIT_ITEM_ID.to_owned() {
        actions.push(TrayAction::Exit { code: 0 });
        Pending::Nothing
    } else {
        actions.push(
            TrayAction::Log {
                level: LogLevel::Error,
                message: UNDEFINED_EVENT_MESSAGE.to_owned(),
            },
        );
        Pending::Nothing
    };
    let step = TrayStep { pending, actions };
    assert(step@.actions =~= dispatch(event_id@).actions);
    step
}

/// Continues the handling of a click with the host's `reply`.
pub fn resume_tray_event(pending: Pending, reply: HostReply) -> (step: TrayStep)
    ensures
        step@ == resume(pending, reply@),
{
    let mut actions: Vec<TrayAction> = Vec::new();
    let next = match (pending, reply) {
        (Pending::Lookup, HostReply::Window { found }) => {
            if found {
                actions.push(TrayAction::ShowWindow { label: MAIN_WINDOW_LABEL.to_owned() });
                Pending::Show
            } else {
                actions.push(TrayAction::CreateWindow { config: main_window() });
                Pending::Create
            }
        },
        (Pending::Show, HostReply::Outcome { ok, detail }) => {
            push_failure_log(&mut actions, ok, SHOW_FAILED_MESSAGE, detail.as_str());
            actions.push(TrayAction::FocusWindow { label: MAIN_WINDOW_LABEL.to_owned() });
            Pending::Focus
        },
        (Pending::Focus, HostReply::Outcome { ok, detail }) => {
            push_failure_log(&mut actions, ok, FOCUS_FAILED_MESSAGE, detail.as_str());
            Pending::Nothing
        },
        (Pending::Create, HostReply::Outcome { ok: _, detail }) => {
            let message = CREATING_WINDOW_MESSAGE.to_owned().concat(detail.as_str());
            actions.push(TrayAction::Log { level: LogLevel::Info, message });
            Pending::Nothing
        },
        (other, _) => other,
    };
    let step = TrayStep { pending: next, actions };
    assert(step@.actions =~= resume(pending, reply@).actions);
    step
}

} // verus!
