//! A click from start to end: what the handler asks of the host over all
//! rounds, whatever the host replies.

use vstd::prelude::*;
use crate::action::{
    main_window_model, LogLevel, TrayActionModel, MAIN_WINDOW_LABEL, MAIN_WINDOW_TITLE,
};
use crate::handler::{
    dispatch, failure_log, resume, HostReplyModel, Pending, TrayStepModel,
    CREATING_WINDOW_MESSAGE, FOCUS_FAILED_MESSAGE, SHOW_FAILED_MESSAGE, UNDEFINED_EVENT_MESSAGE,
};
use crate::menu::{lemma_item_ids_differ, QUIT_ITEM_ID, SHOW_ITEM_ID};

verus! {

/// The rounds that follow while `pending` is awaited and the host hands in
/// `replies` one by one: all their actions in order, and what is awaited at
/// the end.
pub open spec fn resume_all(pending: Pending, replies: Seq<HostReplyModel>) -> TrayStepModel
    decreases replies.len(),
{
    if replies.len() == 0 {
        TrayStepModel { pending, actions: Seq::empty() }
    } else {
        let first = resume(pending, replies[0]);
        let rest = resume_all(first.pending, replies.skip(1));
        TrayStepModel { pending: rest.pending, actions: first.actions + rest.actions }
    }
}

/// A whole click on the item `id`, answered by `replies`.
pub open spec fn click(id: Seq<char>, replies: Seq<HostReplyModel>) -> TrayStepModel {
    let first = dispatch(id);
    let rest = resume_all(first.pending, replies);
    TrayStepModel { pending: rest.pending, actions: first.actions + rest.actions }
}

/// The reply that the host owes after `action`.
pub open spec fn awaited_after(action: TrayActionModel) -> Pending {
    match action {
        TrayActionModel::FindWindow { .. } => Pending::Lookup,
        TrayActionModel::ShowWindow { .. } => Pending::Show,
        TrayActionModel::FocusWindow { .. } => Pending::Focus,
        TrayActionModel::CreateWindow { .. } => Pending::Create,
        TrayActionModel::Exit { .. } => Pending::Nothing,
        TrayActionModel::Log { .. } => Pending::Nothing,
    }
}

/// `reply` is the kind of reply that `pending` waits for.
pub open spec fn answers(pending: Pending, reply: HostReplyModel) -> bool {
    match pending {
        Pending::Nothing => false,
        Pending::Lookup => reply is Window,
        Pending::Show => reply is Outcome,
        Pending::Focus => reply is Outcome,
        Pending::Create => reply is Outcome,
    }
}

/// In a round, only the last action is answered by the host, and its
/// answer is what the round leaves pending.
pub open spec fn round_is_orderly(step: TrayStepModel) -> bool {
    &&& forall|i: int|
        0 <= i < step.actions.len() - 1 ==> awaited_after(#[trigger] step.actions[i])
            == Pending::Nothing
    &&& step.pending == if step.actions.len() == 0 {
        Pending::Nothing
    } else {
        awaited_after(step.actions.last())
    }
}

/// The number of replies that the host still owes at most before the click
/// is dealt with.
pub open spec fn rounds_left(pending: Pending) -> nat {
    match pending {
        Pending::Nothing => 0,
        Pending::Focus => 1,
        Pending::Create => 1,
        Pending::Show => 2,
        Pending::Lookup => 3,
    }
}

/// The first round of every click is orderly.
pub proof fn lemma_first_round_is_orderly(id: Seq<char>)
    ensures
        round_is_orderly(dispatch(id)),
{
}

/// A reply of the awaited kind leads to an orderly round and brings the
/// click closer to its end; any other reply leads to no action and leaves
/// pending what was.
pub proof fn lemma_next_round_is_orderly(pending: Pending, reply: HostReplyModel)
    ensures
        answers(pending, reply) ==> round_is_orderly(resume(pending, reply)) && rounds_left(
            resume(pending, reply).pending,
        ) < rounds_left(pending),
        !answers(pending, reply) ==> resume(pending, reply) == (TrayStepModel {
            pending,
            actions: Seq::empty(),
        }),
{
}

/// Once nothing is pending, no reply leads to any action.
pub proof fn lemma_settled_click_stays_settled(replies: Seq<HostReplyModel>)
    ensures
        resume_all(Pending::Nothing, replies) == (TrayStepModel {
            pending: Pending::Nothing,
            actions: Seq::empty(),
        }),
    decreases replies.len(),
{
    if replies.len() > 0 {
        lemma_settled_click_stays_settled(replies.skip(1));
        assert(resume_all(Pending::Nothing, replies).actions =~= Seq::empty());
    }
}

/// While the outcome of opening the window is awaited, all that can still
/// happen is a line in the log.
proof fn lemma_after_create_only_logs(replies: Seq<HostReplyModel>)
    ensures
        forall|i: int|
            0 <= i < resume_all(Pending::Create, replies).actions.len()
                ==> #[trigger] resume_all(Pending::Create, replies).actions[i] is Log,
    decreases replies.len(),
{
    if replies.len() > 0 {
        let first = resume(Pending::Create, replies[0]);
        if first.pending == Pending::Nothing {
            lemma_settled_click_stays_settled(replies.skip(1));
        } else {
            lemma_after_create_only_logs(replies.skip(1));
        }
    }
}

/// Once the window was found, it is never opened a second time.
proof fn lemma_after_lookup_hit_nothing_is_created(pending: Pending, replies: Seq<HostReplyModel>)
    requires
        pending == Pending::Show || pending == Pending::Focus,
    ensures
        forall|i: int|
            0 <= i < resume_all(pending, replies).actions.len()
                ==> !(#[trigger] resume_all(pending, replies).actions[i] is CreateWindow),
    decreases replies.len(),
{
    if replies.len() > 0 {
        let first = resume(pending, replies[0]);
        if first.pending == Pending::Nothing {
            lemma_settled_click_stays_settled(replies.skip(1));
        } else {
            lemma_after_lookup_hit_nothing_is_created(first.pending, replies.skip(1));
        }
    }
}

/// A click on an item that the menu does not have leads to one error line
/// and nothing else: no window is looked up, shown, focused or opened, and
/// the process goes on, whatever the host hands in afterwards.
pub proof fn lemma_undefined_event_only_logs(id: Seq<char>, replies: Seq<HostReplyModel>)
    requires
        id != SHOW_ITEM_ID@,
        id != QUIT_ITEM_ID@,
    ensures
        click(id, replies).pending == Pending::Nothing,
        click(id, replies).actions == seq![
            TrayActionModel::Log { level: LogLevel::Error, message: UNDEFINED_EVENT_MESSAGE@ },
        ],
        forall|i: int|
            0 <= i < click(id, replies).actions.len() ==> {
                &&& !(#[trigger] click(id, replies).actions[i]).touches_window()
                &&& !click(id, replies).actions[i].ends_process()
            },
{
    lemma_settled_click_stays_settled(replies);
    assert(click(id, replies).actions =~= dispatch(id).actions);
}

/// A click on the quit item ends the process with exit code 0 and touches
/// no window, whatever the host hands in afterwards.
pub proof fn lemma_quit_exits_and_touches_no_window(replies: Seq<HostReplyModel>)
    ensures
        click(QUIT_ITEM_ID@, replies).pending == Pending::Nothing,
        click(QUIT_ITEM_ID@, replies).actions == seq![TrayActionModel::Exit { code: 0 }],
        forall|i: int|
            0 <= i < click(QUIT_ITEM_ID@, replies).actions.len() ==> !(#[trigger] click(
                QUIT_ITEM_ID@,
                replies,
            ).actions[i]).touches_window(),
{
    lemma_item_ids_differ();
    lemma_settled_click_stays_settled(replies);
    assert(click(QUIT_ITEM_ID@, replies).actions =~= dispatch(QUIT_ITEM_ID@).actions);
}

/// A click on the show item while the main window does not exist opens
/// exactly one window, the main window with its title and size, and neither
/// shows nor focuses any, whatever the host hands in afterwards.
pub proof fn lemma_missing_window_is_created_once(replies: Seq<HostReplyModel>)
    requires
        replies.len() > 0,
        replies[0] == (HostReplyModel::Window { found: false }),
    ensures
        click(SHOW_ITEM_ID@, replies).actions.len() >= 2,
        click(SHOW_ITEM_ID@, replies).actions[0] == (TrayActionModel::FindWindow {
            label: MAIN_WINDOW_LABEL@,
        }),
        click(SHOW_ITEM_ID@, replies).actions[1] == (TrayActionModel::CreateWindow {
            config: main_window_model(),
        }),
        forall|i: int|
            2 <= i < click(SHOW_ITEM_ID@, replies).actions.len() ==> #[trigger] click(
                SHOW_ITEM_ID@,
                replies,
            ).actions[i] is Log,
        forall|i: int|
            0 <= i < click(SHOW_ITEM_ID@, replies).actions.len() ==> (#[trigger] click(
                SHOW_ITEM_ID@,
                replies,
            ).actions[i] is CreateWindow <==> i == 1),
        main_window_model().title == MAIN_WINDOW_TITLE@,
        main_window_model().width == 1000,
        main_window_model().height == 700,
{
    let rest = resume_all(Pending::Create, replies.skip(1));
    lemma_after_create_only_logs(replies.skip(1));
    let head = seq![
        TrayActionModel::FindWindow { label: MAIN_WINDOW_LABEL@ },
        TrayActionModel::CreateWindow { config: main_window_model() },
    ];
    assert(click(SHOW_ITEM_ID@, replies).actions =~= head + rest.actions);
}

/// A click on the show item while the main window does not exist, answered
/// as a host answers: the window is looked up, opened, and the host's report
/// goes to the log.
pub proof fn lemma_missing_window_session(ok: bool, detail: Seq<char>)
    ensures
        click(
            SHOW_ITEM_ID@,
            seq![
                HostReplyModel::Window { found: false },
                HostReplyModel::Outcome { ok, detail },
            ],
        ) == (TrayStepModel {
            pending: Pending::Nothing,
            actions: seq![
                TrayActionModel::FindWindow { label: MAIN_WINDOW_LABEL@ },
                TrayActionModel::CreateWindow { config: main_window_model() },
                TrayActionModel::Log {
                    level: LogLevel::Info,
                    message: CREATING_WINDOW_MESSAGE@ + detail,
                },
            ],
        }),
{
    let replies = seq![
        HostReplyModel::Window { found: false },
        HostReplyModel::Outcome { ok, detail },
    ];
    let tail = replies.skip(1);
    assert(tail[0] == (HostReplyModel::Outcome { ok, detail }));
    lemma_settled_click_stays_settled(tail.skip(1));
    assert(resume_all(Pending::Create, tail).actions =~= seq![
        TrayActionModel::Log { level: LogLevel::Info, message: CREATING_WINDOW_MESSAGE@ + detail },
    ]);
    let expected = seq![
        TrayActionModel::FindWindow { label: MAIN_WINDOW_LABEL@ },
        TrayActionModel::CreateWindow { config: main_window_model() },
        TrayActionModel::Log { level: LogLevel::Info, message: CREATING_WINDOW_MESSAGE@ + detail },
    ];
    assert(click(SHOW_ITEM_ID@, replies).actions =~= expected);
}

/// A click on the show item while the main window exists opens no window.
/// The window is shown, and focused whether or not showing it went well,
/// whatever the host hands in afterwards.
pub proof fn lemma_existing_window_is_shown_and_focused(replies: Seq<HostReplyModel>)
    requires
        replies.len() >= 2,
        replies[0] == (HostReplyModel::Window { found: true }),
        replies[1] is Outcome,
    ensures
        forall|i: int|
            0 <= i < click(SHOW_ITEM_ID@, replies).actions.len() ==> !(#[trigger] click(
                SHOW_ITEM_ID@,
                replies,
            ).actions[i] is CreateWindow),
        click(SHOW_ITEM_ID@, replies).actions.len() >= 3,
        click(SHOW_ITEM_ID@, replies).actions[1] == (TrayActionModel::ShowWindow {
            label: MAIN_WINDOW_LABEL@,
        }),
        exists|j: int|
            2 <= j < click(SHOW_ITEM_ID@, replies).actions.len() && #[trigger] click(
                SHOW_ITEM_ID@,
                replies,
            ).actions[j] == (TrayActionModel::FocusWindow { label: MAIN_WINDOW_LABEL@ }),
{
    let after_hit = replies.skip(1);
    let after_show = after_hit.skip(1);
    let shown = resume(Pending::Show, replies[1]);
    let rest = resume_all(Pending::Focus, after_show);
    lemma_after_lookup_hit_nothing_is_created(Pending::Focus, after_show);
    assert(after_hit[0] == replies[1]);
    assert(resume_all(Pending::Show, after_hit).actions =~= shown.actions + rest.actions);
    let head = seq![
        TrayActionModel::FindWindow { label: MAIN_WINDOW_LABEL@ },
        TrayActionModel::ShowWindow { label: MAIN_WINDOW_LABEL@ },
    ];
    let all = click(SHOW_ITEM_ID@, replies).actions;
    assert(all =~= head + shown.actions + rest.actions);
    let j = 2 + shown.actions.len() - 1;
    assert(all[j] == (TrayActionModel::FocusWindow { label: MAIN_WINDOW_LABEL@ }));
}

/// A click on the show item while the main window exists, answered as a
/// host answers: the window is looked up, shown and focused, and each of the
/// two that failed leaves one error line.
pub proof fn lemma_existing_window_session(
    show_ok: bool,
    show_detail: Seq<char>,
    focus_ok: bool,
    focus_detail: Seq<char>,
)
    ensures
        click(
            SHOW_ITEM_ID@,
            seq![
                HostReplyModel::Window { found: true },
                HostReplyModel::Outcome { ok: show_ok, detail: show_detail },
                HostReplyModel::Outcome { ok: focus_ok, detail: focus_detail },
            ],
        ) == (TrayStepModel {
            pending: Pending::Nothing,
            actions: seq![
                TrayActionModel::FindWindow { label: MAIN_WINDOW_LABEL@ },
                TrayActionModel::ShowWindow { label: MAIN_WINDOW_LABEL@ },
            ] + failure_log(show_ok, SHOW_FAILED_MESSAGE@, show_detail)
                + seq![TrayActionModel::FocusWindow { label: MAIN_WINDOW_LABEL@ }] + failure_log(
                focus_ok,
                FOCUS_FAILED_MESSAGE@,
                focus_detail,
            ),
        }),
{
    let replies = seq![
        HostReplyModel::Window { found: true },
        HostReplyModel::Outcome { ok: show_ok, detail: show_detail },
        HostReplyModel::Outcome { ok: focus_ok, detail: focus_detail },
    ];
    let r1 = replies.skip(1);
    let r2 = r1.skip(1);
    let r3 = r2.skip(1);
    assert(r1[0] == replies[1]);
    assert(r2[0] == replies[2]);
    lemma_settled_click_stays_settled(r3);
    let expected = seq![
        TrayActionModel::FindWindow { label: MAIN_WINDOW_LABEL@ },
        TrayActionModel::ShowWindow { label: MAIN_WINDOW_LABEL@ },
    ] + failure_log(show_ok, SHOW_FAILED_MESSAGE@, show_detail)
        + seq![TrayActionModel::FocusWindow { label: MAIN_WINDOW_LABEL@ }] + failure_log(
        focus_ok,
        FOCUS_FAILED_MESSAGE@,
        focus_detail,
    );
    assert(resume_all(Pending::Focus, r2).actions =~= failure_log(
        focus_ok,
        FOCUS_FAILED_MESSAGE@,
        focus_detail,
    ));
    assert(resume_all(Pending::Show, r1).actions =~= failure_log(
        show_ok,
        SHOW_FAILED_MESSAGE@,
        show_detail,
    ) + seq![TrayActionModel::FocusWindow { label: MAIN_WINDOW_LABEL@ }] + failure_log(
        focus_ok,
        FOCUS_FAILED_MESSAGE@,
        focus_detail,
    ));
    assert(click(SHOW_ITEM_ID@, replies).actions =~= expected);
}

} // verus!
