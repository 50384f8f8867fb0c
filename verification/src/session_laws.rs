use vstd::prelude::*;
use crate::capture::{
    recorder_command, ChildPollView, LaunchOutcomeView, ReplayControllerView,
};
use crate::failed_uploads::{
    has_id, lemma_position_found, lemma_without_removes, lookup, unique_ids, without,
    FailedUploadView,
};
use crate::session::{
    AfterPushView, CaptureLoopView, DetectReason, LaunchPurposeView,
    LoopEventView, NoticeView, PhaseView, ReplyView, RequestView, TurnView, UploadOutcomeView,
};
use crate::overlay::CaptureActionPayloadView;
use crate::settings::{PersistedSettingsView, ReplayMode};

verus! {

/// The answer that a request waits for is the one that the phase will take.
pub open spec fn awaits(phase: PhaseView, request: RequestView) -> bool {
    match request {
        RequestView::Launch(_) => phase is Launching,
        RequestView::TriggerSave(_) => phase is Saving,
        RequestView::ShowCapture(_) => phase is Showing,
        RequestView::PushStatus(_) => phase is Pushing,
        RequestView::SetVisible { .. } => phase is Revealing,
        RequestView::DetectGame => phase is Detecting,
        RequestView::RetryUpload(_) => phase is Retrying,
        RequestView::AwaitEvent { .. } => phase is Waiting,
        RequestView::ProcessClip { .. } => phase is Processing,
        RequestView::Exit => phase is Finished,
        RequestView::Abort { .. } => phase is Finished,
    }
}

/// Whether `reply` is the kind of answer that `phase` takes.
pub open spec fn answers(phase: PhaseView, reply: ReplyView) -> bool {
    match phase {
        PhaseView::Starting { .. } => reply is Begin,
        PhaseView::Launching(_) => reply is Launched,
        PhaseView::Showing => reply is Sent,
        PhaseView::Detecting(_) => reply is Game,
        PhaseView::Pushing(_) => reply is Sent,
        PhaseView::Waiting => reply is Event,
        PhaseView::Saving => reply is Saved,
        PhaseView::Revealing { .. } => reply is Sent,
        PhaseView::Retrying { .. } => reply is Upload,
        PhaseView::Processing => reply is ClipDone,
        PhaseView::Finished => false,
    }
}

/// Whether some notice of `notices` lets process `pid` go.
pub open spec fn interrupts_process(notices: Seq<NoticeView>, pid: u32) -> bool {
    exists|i: int| 0 <= i < notices.len() && #[trigger] notices[i] == (NoticeView::Interrupt { pid })
}

/// Whether some notice of `notices` touches a file of a clip.
pub open spec fn touches_files(notices: Seq<NoticeView>) -> bool {
    exists|i: int|
        0 <= i < notices.len() && ((#[trigger] notices[i]) is DeleteFiles || notices[i] is Relocate)
}

/// A turn is orderly when it leaves the session in the phase that takes the
/// answer to its request, and asks for a launch only with nothing held after it
/// and with the process held before it gone or let go.
pub open spec fn orderly(
    before: Option<u32>,
    poll: ChildPollView,
    result: (CaptureLoopView, TurnView),
) -> bool {
    &&& awaits(result.0.phase, result.1.request)
    &&& result.1.request is Launch ==> {
        &&& result.0.controller.child is None
        &&& before matches Some(pid) ==> poll is Exited || interrupts_process(result.1.notices, pid)
    }
}

/// A turn is quiet when it fits its phase and asks for no launch.
pub open spec fn quiet(result: (CaptureLoopView, TurnView)) -> bool {
    &&& awaits(result.0.phase, result.1.request)
    &&& !(result.1.request is Launch)
}

/// A turn that finds no process held leaves none held.
pub open spec fn holds_no_more(before: CaptureLoopView, result: (CaptureLoopView, TurnView)) -> bool {
    before.controller.child is None ==> result.0.controller.child is None
}

/// A turn leaves the list of failed uploads as it was.
pub open spec fn keeps_list(before: CaptureLoopView, result: (CaptureLoopView, TurnView)) -> bool {
    result.0.failed_uploads == before.failed_uploads
}

/// A turn asks for no save.
pub open spec fn asks_no_save(result: (CaptureLoopView, TurnView)) -> bool {
    !(result.1.request is TriggerSave)
}

/// A turn is settled when it starts no process of its own accord, leaves the
/// list alone and asks for no save.
pub open spec fn settled(before: CaptureLoopView, result: (CaptureLoopView, TurnView)) -> bool {
    holds_no_more(before, result) && keeps_list(before, result) && asks_no_save(result)
}

proof fn lemma_tails(
    session: CaptureLoopView,
    poll: ChildPollView,
    notices: Seq<NoticeView>,
    after: AfterPushView,
    saving: bool,
    reason: DetectReason,
    changed: bool,
    enable: bool,
)
    ensures
        quiet(session.push(poll, notices, after, saving)),
        settled(session, session.push(poll, notices, after, saving)),
        quiet(session.show(poll, notices)),
        settled(session, session.show(poll, notices)),
        quiet(session.wait(notices)),
        settled(session, session.wait(notices)),
        quiet(session.persist_mode(poll, notices)),
        settled(session, session.persist_mode(poll, notices)),
        quiet(session.persist_toggle(poll, notices, enable)),
        settled(session, session.persist_toggle(poll, notices, enable)),
        quiet(session.after_detection(poll, reason, changed, notices)),
        settled(session, session.after_detection(poll, reason, changed, notices)),
        quiet(session.mismatch()),
        settled(session, session.mismatch()),
{
}

proof fn lemma_settings_applied(
    session: CaptureLoopView,
    poll: ChildPollView,
    merged: crate::capture::ReplaySettingsView,
)
    ensures
        quiet(session.settings_applied(poll, merged)),
        settled(session, session.settings_applied(poll, merged)),
{
}

proof fn lemma_launched(
    session: CaptureLoopView,
    poll: ChildPollView,
    purpose: LaunchPurposeView,
    outcome: LaunchOutcomeView,
)
    ensures
        quiet(session.launched(poll, purpose, outcome)),
        keeps_list(session, session.launched(poll, purpose, outcome)),
        asks_no_save(session.launched(poll, purpose, outcome)),
        session.controller.child is None && session.launched(
            poll,
            purpose,
            outcome,
        ).0.controller.child is Some ==> (outcome matches LaunchOutcomeView::Started { pid }
            && session.launched(poll, purpose, outcome).0.controller.child == Some(pid)),
{
    reveal(CaptureLoopView::launched);
    match purpose {
        LaunchPurposeView::Apply { merged } => {
            lemma_settings_applied(
                session.with_controller(session.controller.launched(outcome)),
                poll,
                merged,
            );
        },
        _ => {},
    }
}

proof fn lemma_sent(
    session: CaptureLoopView,
    poll: ChildPollView,
    after: AfterPushView,
    error: Option<Seq<char>>,
)
    ensures
        quiet(session.sent(poll, after, error)),
        holds_no_more(session, session.sent(poll, after, error)),
        keeps_list(session, session.sent(poll, after, error)),
        session.sent(poll, after, error).1.request is TriggerSave ==> {
            &&& session.sent(poll, after, error).0.phase is Saving
            &&& after matches AfterPushView::Trigger { duration }
            &&& session.controller.child matches Some(pid)
            &&& session.sent(poll, after, error).1.request == RequestView::TriggerSave(
                crate::capture::SavePlan {
                    pid,
                    signal: crate::capture::save_signal_number(
                        duration,
                        session.signals.base(),
                        session.signals.full(),
                    ) as i32,
                    grace_seconds: crate::capture::SAVE_GRACE_SECONDS,
                    fell_back: crate::capture::falls_back(duration),
                },
            )
        },
{
    reveal(CaptureLoopView::sent);
}

proof fn lemma_shown(session: CaptureLoopView, error: Option<Seq<char>>)
    ensures
        quiet(session.shown(error)),
        settled(session, session.shown(error)),
{
    reveal(CaptureLoopView::shown);
}

proof fn lemma_save_taken(
    session: CaptureLoopView,
    poll: ChildPollView,
    outcome: crate::capture::SaveOutcomeView,
)
    ensures
        quiet(session.save_taken(poll, outcome)),
        settled(session, session.save_taken(poll, outcome)),
{
    reveal(CaptureLoopView::save_taken);
}

proof fn lemma_revealed(
    session: CaptureLoopView,
    path: Seq<char>,
    status: crate::overlay::CaptureStatusPayloadView,
    error: Option<Seq<char>>,
)
    ensures
        quiet(session.revealed(path, status, error)),
        settled(session, session.revealed(path, status, error)),
{
    reveal(CaptureLoopView::revealed);
}

proof fn lemma_uploaded(
    session: CaptureLoopView,
    poll: ChildPollView,
    upload: FailedUploadView,
    outcome: UploadOutcomeView,
)
    ensures
        quiet(session.uploaded(poll, upload, outcome)),
        holds_no_more(session, session.uploaded(poll, upload, outcome)),
        asks_no_save(session.uploaded(poll, upload, outcome)),
        session.uploaded(poll, upload, outcome).0.failed_uploads == session.failed_uploads
            || session.uploaded(poll, upload, outcome).0.failed_uploads == without(
            session.failed_uploads,
            upload.id,
        ),
{
    reveal(CaptureLoopView::uploaded);
}

proof fn lemma_clip_done(
    session: CaptureLoopView,
    poll: ChildPollView,
    failed_upload: Option<FailedUploadView>,
)
    ensures
        quiet(session.clip_done(poll, failed_upload)),
        holds_no_more(session, session.clip_done(poll, failed_upload)),
        asks_no_save(session.clip_done(poll, failed_upload)),
        session.clip_done(poll, failed_upload).0.failed_uploads == match failed_upload {
            Some(upload) => session.failed_uploads.push(upload),
            None => session.failed_uploads,
        },
{
    reveal(CaptureLoopView::clip_done);
}

proof fn lemma_begin(session: CaptureLoopView, poll: ChildPollView, start_now: bool)
    ensures
        orderly(session.controller.child, poll, session.begin(poll, start_now)),
        settled(session, session.begin(poll, start_now)),
{
    reveal(CaptureLoopView::begin);
}

proof fn lemma_detected(
    session: CaptureLoopView,
    poll: ChildPollView,
    reason: DetectReason,
    name: Option<Seq<char>>,
)
    ensures
        orderly(session.controller.child, poll, session.detected(poll, reason, name)),
        settled(session, session.detected(poll, reason, name)),
{
    reveal(CaptureLoopView::detected);
}

proof fn lemma_toggle(session: CaptureLoopView, poll: ChildPollView, enable: bool)
    ensures
        orderly(session.controller.child, poll, session.toggle(poll, enable)),
        settled(session, session.toggle(poll, enable)),
{
}

proof fn lemma_update_settings(
    session: CaptureLoopView,
    poll: ChildPollView,
    request: crate::overlay::CaptureSettingsPayloadView,
)
    ensures
        orderly(session.controller.child, poll, session.update_settings(poll, request)),
        settled(session, session.update_settings(poll, request)),
{
    let merged = crate::session::merged_settings(session.controller.settings, request);
    let result = session.update_settings(poll, request);
    match session.controller.child {
        Some(pid) => {
            assert(result.1.notices[0] == (NoticeView::Interrupt { pid }));
        },
        None => {
            lemma_settings_applied(
                session.with_controller(session.controller.applied(merged)),
                poll,
                merged,
            );
        },
    }
}

proof fn lemma_update_mode(session: CaptureLoopView, poll: ChildPollView, mode: ReplayMode)
    ensures
        quiet(session.update_mode(poll, mode)),
        settled(session, session.update_mode(poll, mode)),
{
}

proof fn lemma_failed_upload(
    session: CaptureLoopView,
    poll: ChildPollView,
    word: Seq<char>,
    id: Seq<char>,
)
    ensures
        quiet(session.failed_upload(poll, word, id)),
        holds_no_more(session, session.failed_upload(poll, word, id)),
        asks_no_save(session.failed_upload(poll, word, id)),
        session.failed_upload(poll, word, id).0.failed_uploads == session.failed_uploads
            || session.failed_upload(poll, word, id).0.failed_uploads == without(
            session.failed_uploads,
            id,
        ),
{
}

proof fn lemma_event(session: CaptureLoopView, poll: ChildPollView, event: LoopEventView)
    ensures
        orderly(session.controller.child, poll, session.event(poll, event)),
        holds_no_more(session, session.event(poll, event)),
        asks_no_save(session.event(poll, event)),
        event matches LoopEventView::Action(CaptureActionPayloadView::FailedUpload { id, .. })
            ==> (session.event(poll, event).0.failed_uploads == session.failed_uploads
            || session.event(poll, event).0.failed_uploads == without(session.failed_uploads, id)),
        !(event matches LoopEventView::Action(CaptureActionPayloadView::FailedUpload { .. }))
            ==> keeps_list(session, session.event(poll, event)),
{
    reveal(CaptureLoopView::event);
    match event {
        LoopEventView::Action(action) => {
            match action {
                CaptureActionPayloadView::Toggle { enable } => {
                    lemma_toggle(session, poll, enable);
                },
                CaptureActionPayloadView::Save { duration_secs } => {},
                CaptureActionPayloadView::UpdateSettings { settings } => {
                    lemma_update_settings(session, poll, settings);
                },
                CaptureActionPayloadView::UpdateMode { mode } => {
                    lemma_update_mode(session, poll, crate::session::mode_of_word(mode));
                },
                CaptureActionPayloadView::FailedUpload { upload_action, id } => {
                    lemma_failed_upload(session, poll, upload_action, id);
                },
            }
        },
        _ => {},
    }
}

/// What every turn has in common, whatever the phase and the answer.
proof fn lemma_every_turn(session: CaptureLoopView, poll: ChildPollView, reply: ReplyView)
    ensures
        orderly(session.controller.child, poll, session.step(poll, reply)),
        !(session.phase is Launching) ==> holds_no_more(session, session.step(poll, reply)),
        !(session.phase is Pushing) ==> asks_no_save(session.step(poll, reply)),
        !(session.phase is Waiting || session.phase is Retrying || session.phase is Processing)
            ==> keeps_list(session, session.step(poll, reply)),
{
    let m = session.in_phase(PhaseView::Finished);
    lemma_tails(
        m,
        poll,
        arbitrary(),
        arbitrary(),
        arbitrary(),
        arbitrary(),
        arbitrary(),
        arbitrary(),
    );
    match session.phase {
        PhaseView::Starting { start_now } => {
            lemma_begin(m, poll, start_now);
        },
        PhaseView::Launching(purpose) => {
            if let ReplyView::Launched(outcome) = reply {
                lemma_launched(m, poll, purpose, outcome);
            }
        },
        PhaseView::Showing => {
            if let ReplyView::Sent { error } = reply {
                lemma_shown(m, error);
            }
        },
        PhaseView::Detecting(reason) => {
            if let ReplyView::Game { name } = reply {
                lemma_detected(m, poll, reason, name);
            }
        },
        PhaseView::Pushing(after) => {
            if let ReplyView::Sent { error } = reply {
                lemma_sent(m, poll, after, error);
            }
        },
        PhaseView::Waiting => {
            if let ReplyView::Event(event) = reply {
                lemma_event(m, poll, event);
            }
        },
        PhaseView::Saving => {
            if let ReplyView::Saved(outcome) = reply {
                lemma_save_taken(m, poll, outcome);
            }
        },
        PhaseView::Revealing { path, status } => {
            if let ReplyView::Sent { error } = reply {
                lemma_revealed(m, path, status, error);
            }
        },
        PhaseView::Retrying { upload } => {
            if let ReplyView::Upload(outcome) = reply {
                lemma_uploaded(m, poll, upload, outcome);
            }
        },
        PhaseView::Processing => {
            if let ReplyView::ClipDone { failed_upload } = reply {
                lemma_clip_done(m, poll, failed_upload);
            }
        },
        PhaseView::Finished => {},
    }
}

/// Every turn is orderly: it leaves the session in the phase that takes the
/// answer to its request, so a caller that answers what it was asked is never
/// turned away; and it asks for a launch only when nothing is held any more, a
/// process that was held before having exited or being let go by a notice of
/// the same turn. There is never a second recorder.
pub proof fn lemma_turns_are_orderly(session: CaptureLoopView, poll: ChildPollView, reply: ReplyView)
    ensures
        orderly(session.controller.child, poll, session.step(poll, reply)),
{
    lemma_every_turn(session, poll, reply);
}

/// An answer of the wrong kind ends the session, and so does any answer once
/// the session is over.
pub proof fn lemma_wrong_answer_ends(session: CaptureLoopView, poll: ChildPollView, reply: ReplyView)
    requires
        !answers(session.phase, reply),
    ensures
        session.step(poll, reply).0.phase is Finished,
        session.step(poll, reply).1.request is Abort,
        session.step(poll, reply).1.notices.len() == 0,
{
}

/// A process comes to be held only by taking in a launch that started.
pub proof fn lemma_held_only_after_launch(
    session: CaptureLoopView,
    poll: ChildPollView,
    reply: ReplyView,
)
    requires
        session.controller.child is None,
        session.step(poll, reply).0.controller.child is Some,
    ensures
        session.phase is Launching,
        reply matches ReplyView::Launched(LaunchOutcomeView::Started { pid })
            && session.step(poll, reply).0.controller.child == Some(pid),
{
    lemma_every_turn(session, poll, reply);
    let m = session.in_phase(PhaseView::Finished);
    if let PhaseView::Launching(purpose) = session.phase {
        if let ReplyView::Launched(outcome) = reply {
            lemma_launched(m, poll, purpose, outcome);
        }
    }
}

/// In automatic mode, a game that appears while none ran and no recorder is
/// held asks for exactly one launch, of the command for the normalized settings.
pub proof fn lemma_game_appears(
    session: CaptureLoopView,
    poll: ChildPollView,
    reason: DetectReason,
    game: Seq<char>,
)
    requires
        !session.game_was_running,
        game.len() > 0,
        !session.controller.is_running(),
    ensures
        session.detected(poll, reason, Some(game)).1 == (TurnView {
            notices: Seq::empty(),
            request: RequestView::Launch(recorder_command(session.controller.settings.normalized())),
        }),
        session.detected(poll, reason, Some(game)).0.phase == PhaseView::Launching(
            LaunchPurposeView::Detection { game, reason },
        ),
{
    reveal(CaptureLoopView::detected);
}

/// Once that launch has started, the game counts as running and the process is held.
pub proof fn lemma_game_recorder_started(
    session: CaptureLoopView,
    reason: DetectReason,
    game: Seq<char>,
    pid: u32,
)
    ensures
        ({
            let after = session.launched_for_game(
                ChildPollView::Alive,
                LaunchOutcomeView::Started { pid },
                game,
                reason,
            ).0;
            &&& after.game_was_running
            &&& after.controller.child == Some(pid)
            &&& after.controller.last_message == Some("Replay started ("@ + game + ")"@)
        }),
{
}

/// A start for a game that failed is not tried again: whatever came of the
/// launch, the game counts as running afterwards, so as long as it is seen
/// running no launch is asked for and nothing is let go.
pub proof fn lemma_failed_start_is_not_retried(
    session: CaptureLoopView,
    poll: ChildPollView,
    outcome: LaunchOutcomeView,
    game: Seq<char>,
    reason: DetectReason,
    next_poll: ChildPollView,
    next_reason: DetectReason,
    next_game: Seq<char>,
)
    requires
        next_game.len() > 0,
    ensures
        ({
            let after = session.launched_for_game(poll, outcome, game, reason).0;
            let (later, turn) = after.detected(next_poll, next_reason, Some(next_game));
            &&& after.game_was_running
            &&& !(turn.request is Launch)
            &&& forall|i: int|
                0 <= i < turn.notices.len() ==> !((#[trigger] turn.notices[i]) is Interrupt)
            &&& later.game_was_running
        }),
{
    reveal(CaptureLoopView::detected);
}

/// What a look saw is remembered: unless the turn asks for a launch, the game
/// counts as running afterwards exactly if the look saw one; and a launch is
/// asked for only on the edge from none to one.
pub proof fn lemma_presence_is_remembered(
    session: CaptureLoopView,
    poll: ChildPollView,
    reason: DetectReason,
    name: Option<Seq<char>>,
)
    ensures
        ({
            let (after, turn) = session.detected(poll, reason, name);
            let present = crate::session::seen_game(name).len() > 0;
            &&& !(turn.request is Launch) ==> after.game_was_running == present
            &&& turn.request is Launch ==> present && !session.game_was_running
        }),
{
    reveal(CaptureLoopView::detected);
}

/// A game that still runs, or still does not, starts and stops nothing.
pub proof fn lemma_game_steady(
    session: CaptureLoopView,
    poll: ChildPollView,
    reason: DetectReason,
    game: Seq<char>,
)
    requires
        session.game_was_running == (game.len() > 0),
    ensures
        ({
            let (after, turn) = session.detected(poll, reason, Some(game));
            &&& !(turn.request is Launch)
            &&& forall|i: int|
                0 <= i < turn.notices.len() ==> !((#[trigger] turn.notices[i]) is Interrupt)
            &&& (after.controller == session.controller || after.controller
                == session.controller.refreshed(poll))
            &&& after.game_was_running == session.game_was_running
        }),
{
    reveal(CaptureLoopView::detected);
}

/// A game that vanishes lets the recorder go, once: the process that was held is
/// interrupted, nothing is held afterwards, and the game counts as gone.
pub proof fn lemma_game_vanishes(
    session: CaptureLoopView,
    poll: ChildPollView,
    reason: DetectReason,
)
    requires
        session.game_was_running,
    ensures
        ({
            let (after, turn) = session.detected(poll, reason, Some(Seq::empty()));
            &&& !(turn.request is Launch)
            &&& !after.game_was_running
            &&& !after.controller.is_running()
            &&& session.controller.child matches Some(pid) ==> turn.notices.len() > 0 && turn.notices[0]
                == (NoticeView::Interrupt { pid })
        }),
{
    reveal(CaptureLoopView::detected);
    let turn = session.detected(poll, reason, Some(Seq::empty())).1;
    assert(Seq::<char>::empty().len() == 0);
}

/// A look for the game that failed counts as a look that saw no game: where a
/// game counted as running, the recorder is let go and the game counts as gone;
/// where none did, nothing happens. No launch is ever asked for.
pub proof fn lemma_detection_failure_counts_as_no_game(
    session: CaptureLoopView,
    poll: ChildPollView,
    reason: DetectReason,
)
    ensures
        session.detected(poll, reason, None) == session.detected(
            poll,
            reason,
            Some(Seq::empty()),
        ),
        ({
            let (after, turn) = session.detected(poll, reason, None);
            &&& !(turn.request is Launch)
            &&& !after.game_was_running
            &&& session.game_was_running ==> {
                &&& !after.controller.is_running()
                &&& session.controller.child matches Some(pid) ==> turn.notices.len() > 0
                    && turn.notices[0] == (NoticeView::Interrupt { pid })
            }
            &&& !session.game_was_running ==> {
                &&& forall|i: int|
                    0 <= i < turn.notices.len() ==> !((#[trigger] turn.notices[i]) is Interrupt)
                &&& (after.controller == session.controller || after.controller
                    == session.controller.refreshed(poll))
            }
        }),
{
    reveal(CaptureLoopView::detected);
    assert(Seq::<char>::empty().len() == 0);
}

/// The switch to manual mode always lets the recorder go, whether a game runs
/// or not.
pub proof fn lemma_manual_mode_stops(session: CaptureLoopView, poll: ChildPollView)
    requires
        session.mode == ReplayMode::AutoWithGame,
    ensures
        ({
            let (after, turn) = session.update_mode(poll, ReplayMode::Manual);
            &&& after.mode == ReplayMode::Manual
            &&& !after.controller.is_running()
            &&& !after.game_was_running
            &&& !(turn.request is Launch)
            &&& session.controller.child matches Some(pid) ==> turn.notices.len() > 0 && turn.notices[0]
                == (NoticeView::Interrupt { pid })
        }),
{
}

/// A mode that is asked for is the mode from then on.
pub proof fn lemma_mode_is_taken(session: CaptureLoopView, poll: ChildPollView, mode: ReplayMode)
    ensures
        session.update_mode(poll, mode).0.mode == mode,
{
}

/// Asking for the mode that is in force starts nothing, stops nothing, writes
/// nothing down and forgets nothing: only the status is sent.
pub proof fn lemma_same_mode_is_inert(session: CaptureLoopView, poll: ChildPollView)
    ensures
        ({
            let (after, turn) = session.update_mode(poll, session.mode);
            &&& turn.notices.len() == 0
            &&& (turn.request is PushStatus || turn.request is Abort)
            &&& after.controller == session.controller.refreshed(poll)
            &&& after.game_was_running == session.game_was_running
            &&& after.mode == session.mode
            &&& after.failed_uploads == session.failed_uploads
        }),
{
}

/// In manual mode a tick starts and stops nothing; it only forgets the last look.
pub proof fn lemma_manual_tick_is_inert(session: CaptureLoopView, poll: ChildPollView)
    requires
        session.mode == ReplayMode::Manual,
    ensures
        session.event(poll, LoopEventView::Tick) == (
            CaptureLoopView {
                game_was_running: false,
                phase: PhaseView::Waiting,
                ..session
            },
            TurnView {
                notices: Seq::empty(),
                request: RequestView::AwaitEvent {
                    tick_seconds: crate::session::DETECTION_INTERVAL_SECONDS,
                },
            },
        ),
{
    reveal(CaptureLoopView::event);
}

/// In automatic mode the user's switch is not honoured: nothing starts or stops.
pub proof fn lemma_toggle_ignored_in_auto(session: CaptureLoopView, poll: ChildPollView, enable: bool)
    requires
        session.mode == ReplayMode::AutoWithGame,
    ensures
        ({
            let (after, turn) = session.toggle(poll, enable);
            &&& turn.notices.len() == 0
            &&& !(turn.request is Launch)
            &&& after.controller == ReplayControllerView {
                last_message: Some("Toggle disabled in auto mode"@),
                ..session.controller
            }.refreshed(poll)
        }),
{
}

/// Discarding a failed upload takes its record off the list, asks for both of
/// its files to be deleted, and has the shorter list written down.
pub proof fn lemma_discard(session: CaptureLoopView, poll: ChildPollView, id: Seq<char>)
    requires
        unique_ids(session.failed_uploads),
        has_id(session.failed_uploads, id),
    ensures
        ({
            let (after, turn) = session.failed_upload(poll, "discard"@, id);
            let record = lookup(session.failed_uploads, id)->0;
            &&& lookup(session.failed_uploads, id) is Some
            &&& record.id == id
            &&& after.failed_uploads == without(session.failed_uploads, id)
            &&& !has_id(after.failed_uploads, id)
            &&& after.failed_uploads.len() == session.failed_uploads.len() - 1
            &&& turn.notices == seq![
                NoticeView::DeleteFiles {
                    processed_path: record.processed_path,
                    full_path: record.full_path,
                },
                NoticeView::SaveFailedUploads(after.failed_uploads),
            ]
        }),
{
    reveal_strlit("discard");
    reveal_strlit("retry");
    reveal_strlit("ignore");
    assert("discard"@.len() != "retry"@.len());
    assert("discard"@.len() != "ignore"@.len());
    lemma_position_found(session.failed_uploads, id);
    lemma_without_removes(session.failed_uploads, id);
}

/// Ignoring a failed upload takes its record off the list and touches no file.
pub proof fn lemma_ignore(session: CaptureLoopView, poll: ChildPollView, id: Seq<char>)
    requires
        unique_ids(session.failed_uploads),
    ensures
        ({
            let (after, turn) = session.failed_upload(poll, "ignore"@, id);
            &&& after.failed_uploads == without(session.failed_uploads, id)
            &&& !has_id(after.failed_uploads, id)
            &&& turn.notices == seq![NoticeView::SaveFailedUploads(after.failed_uploads)]
            &&& !touches_files(turn.notices)
        }),
{
    reveal_strlit("retry");
    reveal_strlit("ignore");
    assert("ignore"@.len() != "retry"@.len());
    lemma_without_removes(session.failed_uploads, id);
}

/// Asking for a retry changes neither the list nor any file: the record is
/// handed out for the upload, and stays listed until that has gone through.
pub proof fn lemma_retry_asks(session: CaptureLoopView, poll: ChildPollView, id: Seq<char>)
    requires
        has_id(session.failed_uploads, id),
    ensures
        ({
            let (after, turn) = session.failed_upload(poll, "retry"@, id);
            let record = lookup(session.failed_uploads, id)->0;
            &&& lookup(session.failed_uploads, id) is Some
            &&& after.failed_uploads == session.failed_uploads
            &&& turn.notices.len() == 0
            &&& turn.request == RequestView::RetryUpload(record)
            &&& after.phase == (PhaseView::Retrying { upload: record })
        }),
{
    lemma_position_found(session.failed_uploads, id);
}

/// A retry that went through takes the record off the list and asks for its
/// files to be moved where an uploaded clip belongs: into the directory named
/// after the clip and the video, the finished clip under that name, the raw
/// capture under the bare title. One that did not leaves the list and the
/// files alone.
pub proof fn lemma_retry_outcome(
    session: CaptureLoopView,
    poll: ChildPollView,
    upload: FailedUploadView,
    outcome: UploadOutcomeView,
)
    requires
        unique_ids(session.failed_uploads),
    ensures
        ({
            let (after, turn) = session.uploaded(poll, upload, outcome);
            match outcome {
                UploadOutcomeView::Uploaded { video_id } => {
                    &&& after.failed_uploads == without(session.failed_uploads, upload.id)
                    &&& !has_id(after.failed_uploads, upload.id)
                    &&& turn.notices == seq![
                        NoticeView::Relocate {
                            upload,
                            video_id,
                            destination: crate::clip::destination_of(
                                session.processed_dir,
                                upload.display_name() + " ["@ + video_id + "]"@,
                                upload.title,
                            ),
                        },
                        NoticeView::SaveFailedUploads(after.failed_uploads),
                    ]
                },
                _ => after.failed_uploads == session.failed_uploads && turn.notices.len() == 0,
            }
        }),
{
    reveal(CaptureLoopView::uploaded);
    lemma_without_removes(session.failed_uploads, upload.id);
}

/// A closed stream ends the session at once, with nothing left to do.
pub proof fn lemma_closed_stream_exits(session: CaptureLoopView, poll: ChildPollView)
    ensures
        session.event(poll, LoopEventView::Closed) == (
            session.in_phase(PhaseView::Finished),
            TurnView { notices: Seq::empty(), request: RequestView::Exit },
        ),
{
    reveal(CaptureLoopView::event);
}

/// A message that could not be read does not end the session.
pub proof fn lemma_unreadable_message_goes_on(
    session: CaptureLoopView,
    poll: ChildPollView,
    reason: Seq<char>,
)
    requires
        session.controller.refresh_error(poll) is None,
    ensures
        session.event(poll, LoopEventView::ReceiveFailed { reason }).1.request is PushStatus,
        session.event(poll, LoopEventView::ReceiveFailed { reason }).0.phase == PhaseView::Pushing(
            AfterPushView::Await,
        ),
{
    reveal(CaptureLoopView::event);
}

/// A save asked for while no recorder runs is reported as such, after the panel
/// was told of the save: no signal is asked for.
pub proof fn lemma_save_without_recorder(
    session: CaptureLoopView,
    poll: ChildPollView,
    duration: Option<u32>,
)
    requires
        !session.controller.is_running(),
    ensures
        ({
            let (after, turn) = session.trigger(poll, duration);
            &&& turn.request is PushStatus
            &&& after.controller.last_message == Some(
                "Save failed: replay recorder is not running"@,
            )
            &&& after.phase == PhaseView::Pushing(AfterPushView::Fresh)
        }),
{
    assert("Save failed: "@ + "replay recorder is not running"@
        =~= "Save failed: replay recorder is not running"@) by {
        reveal_strlit("Save failed: ");
        reveal_strlit("replay recorder is not running");
        reveal_strlit("Save failed: replay recorder is not running");
    }
}

/// The status that a turn sends is that of the state the turn leaves, but for
/// the message where the turn says so: nothing stale is shown of the recorder,
/// the mode or the list.
pub proof fn lemma_status_is_current(
    session: CaptureLoopView,
    poll: ChildPollView,
    notices: Seq<NoticeView>,
    after: AfterPushView,
    saving: bool,
)
    ensures
        session.push(poll, notices, after, saving).1.request matches RequestView::PushStatus(status)
            ==> status == session.push(poll, notices, after, saving).0.payload(saving),
{
}

/// While a save is under way no turn asks for another, nor for a launch: the
/// answer to the save is taken in first.
pub proof fn lemma_one_save_at_a_time(session: CaptureLoopView, poll: ChildPollView, reply: ReplyView)
    requires
        session.phase is Saving,
    ensures
        !(session.step(poll, reply).1.request is TriggerSave),
        !(session.step(poll, reply).1.request is Launch),
{
    lemma_every_turn(session, poll, reply);
    if let ReplyView::Saved(outcome) = reply {
        lemma_save_taken(session.in_phase(PhaseView::Finished), poll, outcome);
    }
}

/// A save is asked for only once the panel was told of it, and of the process
/// that is held, with the signal that the table gives for the duration.
pub proof fn lemma_save_asks_the_held_process(
    session: CaptureLoopView,
    poll: ChildPollView,
    reply: ReplyView,
)
    requires
        session.step(poll, reply).1.request is TriggerSave,
    ensures
        session.phase matches PhaseView::Pushing(AfterPushView::Trigger { duration }) && {
            &&& session.controller.child matches Some(pid)
            &&& session.step(poll, reply).0.phase is Saving
            &&& session.step(poll, reply).1.request == RequestView::TriggerSave(
                crate::capture::SavePlan {
                    pid,
                    signal: crate::capture::save_signal_number(
                        duration,
                        session.signals.base(),
                        session.signals.full(),
                    ) as i32,
                    grace_seconds: crate::capture::SAVE_GRACE_SECONDS,
                    fell_back: crate::capture::falls_back(duration),
                },
            )
        },
{
    lemma_every_turn(session, poll, reply);
    if let PhaseView::Pushing(after) = session.phase {
        if let ReplyView::Sent { error } = reply {
            lemma_sent(session.in_phase(PhaseView::Finished), poll, after, error);
        }
    }
}

/// The identifiers of the list stay unique through every turn, as long as a
/// failed upload that a finished clip brings goes by a new one.
pub proof fn lemma_list_stays_unique(session: CaptureLoopView, poll: ChildPollView, reply: ReplyView)
    requires
        unique_ids(session.failed_uploads),
        reply matches ReplyView::ClipDone { failed_upload: Some(upload) } ==> !has_id(
            session.failed_uploads,
            upload.id,
        ),
    ensures
        unique_ids(session.step(poll, reply).0.failed_uploads),
{
    lemma_every_turn(session, poll, reply);
    let m = session.in_phase(PhaseView::Finished);
    match session.phase {
        PhaseView::Waiting => {
            if let ReplyView::Event(event) = reply {
                lemma_event(m, poll, event);
                if let LoopEventView::Action(CaptureActionPayloadView::FailedUpload { id, .. }) =
                    event {
                    lemma_without_removes(session.failed_uploads, id);
                }
            }
        },
        PhaseView::Retrying { upload } => {
            if let ReplyView::Upload(outcome) = reply {
                lemma_uploaded(m, poll, upload, outcome);
                lemma_without_removes(session.failed_uploads, upload.id);
            }
        },
        PhaseView::Processing => {
            if let ReplyView::ClipDone { failed_upload } = reply {
                lemma_clip_done(m, poll, failed_upload);
                if let Some(upload) = failed_upload {
                    crate::failed_uploads::lemma_push_keeps_unique(session.failed_uploads, upload);
                }
            }
        },
        _ => {},
    }
}

/// A session that begins from the record that another wrote down begins where
/// that one stood: with its mode, with every setting that the record covers,
/// and with the recorder started at once exactly if the mode is manual and the
/// recorder was enabled. What the record does not cover comes from the defaults.
pub proof fn lemma_session_restores_what_was_written(
    session: CaptureLoopView,
    enabled: bool,
    defaults: crate::capture::ReplaySettingsView,
    auto_start: bool,
)
    ensures
        ({
            let record = PersistedSettingsView::of(
                session.controller.settings,
                session.mode,
                enabled,
            );
            let start = crate::session::restored_start(defaults, auto_start, Some(record));
            &&& session.persisted(enabled) == NoticeView::SaveSettings(record)
            &&& start.mode == session.mode
            &&& start.start_now == (session.mode == ReplayMode::Manual && enabled)
            &&& PersistedSettingsView::of(start.settings, start.mode, enabled) == record
            &&& start.settings.binary == defaults.binary
            &&& start.settings.output_dir == defaults.output_dir
            &&& start.settings.replay_storage == defaults.replay_storage
            &&& start.settings.restore_portal_session == defaults.restore_portal_session
        }),
{
}


/// A launch is awaited only with nothing held, so a process that starts never
/// takes the place of another.
pub proof fn lemma_launch_finds_nothing_held(
    session: CaptureLoopView,
    poll: ChildPollView,
    reply: ReplyView,
)
    requires
        session.step(poll, reply).0.phase is Launching,
    ensures
        session.step(poll, reply).1.request is Launch,
        session.step(poll, reply).0.controller.child is None,
{
    lemma_every_turn(session, poll, reply);
}

/// A status never shows a recorder as running that the look of the same turn
/// saw gone, and it shows one as running only while a process is held.
pub proof fn lemma_status_shows_no_dead_recorder(
    session: CaptureLoopView,
    poll: ChildPollView,
    notices: Seq<NoticeView>,
    after: AfterPushView,
    saving: bool,
)
    ensures
        session.push(poll, notices, after, saving).1.request matches RequestView::PushStatus(status)
            ==> {
            &&& status.running ==> !(poll is Exited) && session.controller.child is Some
            &&& status.running == session.push(poll, notices, after, saving).0.controller.is_running()
            &&& status.is_saving == saving
        },
{
}


} // verus!
