use leveler_tui::delivery::{
    command_completion, delivery_answer, first_submission_attempt, interaction_completion,
    ClientReply, DeliveryAnswer, EffectCompletion, FirstAttempt, SettleStep, Settling,
};
use leveler_tui::i18n::Locale;
use leveler_tui::protocol::{NotificationLevel, RuntimeStatus};
use leveler_tui::run::{
    advance_clock, after_event, dispatch_effect, draft_is_kept, editor_not_started, editor_outcome,
    expire_notification, follows_other_session, history_tail, keep_polling, loaded_history, plain_text_char,
    resync_failed, saved_history, session_exit_hint, stream_closed, stream_step, take_jump, update_clock_label, wants_paint,
    Burst, DeliveryJob, Dispatch, Effect, HostAbilities, KeyPress, Received, RemoteRequest,
    StreamStep, TuiError,
    WEB_LAUNCHER_UNAVAILABLE,
};
use leveler_tui::screen::Screen;
use leveler_tui::state::{
    AppState, ApprovalRequest, Boot, ClarificationRequest, Notification, PendingInteraction,
};
use leveler_tui::theme::Theme;

const NOTIFICATION_TTL_INFO: u64 = 4000;

fn state() -> AppState {
    AppState::new(
        Theme::no_color(),
        Boot {
            session_id: "s1".into(),
            user: "u".into(),
            version: "0".into(),
            show_welcome: false,
            draft_path: None,
            history_path: None,
            context_window: 0,
            locale: Locale::Zh,
            untrusted_config: Vec::new(),
            reasoning_effort: None,
        },
        true,
    )
}

/// Settles a submission against scripted replies, recording the id of every attempt.
fn settle(
    mut settling: Settling,
    replies: Vec<ClientReply>,
) -> (EffectCompletion, Vec<String>, Vec<u64>) {
    let mut replies = replies.into_iter();
    let mut delivered = Vec::new();
    let mut pauses = Vec::new();
    loop {
        match settling.next() {
            SettleStep::AwaitInFlight => {}
            SettleStep::Redeliver {
                pause_ms,
                command_id,
            } => {
                delivered.push(command_id);
                pauses.push(pause_ms);
            }
        }
        let answer = delivery_answer(replies.next().expect("scripted"));
        if let Some(done) = settling.answered(answer) {
            assert!(done.resync);
            return (done.what, delivered, pauses);
        }
    }
}

/// Stable identity: however many attempts it takes, each carries the id
/// the logical command was born with, and only an answer ends the retries.
#[test]
fn an_unanswered_submission_is_redelivered_under_its_original_command_id() {
    let (settled, delivered, pauses) = settle(
        Settling::new("cmd-logical".into(), false),
        vec![
            ClientReply::OutcomeUnknown,
            ClientReply::OutcomeUnknown,
            ClientReply::Delivered,
        ],
    );
    assert!(
        matches!(
            &settled,
            EffectCompletion::SubmissionDelivered { command_id } if command_id == "cmd-logical"
        ),
        "{settled:?}"
    );
    assert_eq!(delivered, vec!["cmd-logical", "cmd-logical", "cmd-logical"]);
    assert_eq!(pauses, vec![500, 1000, 2000]);
}

/// An attempt that outlived the first wait still answers. Its answer is
/// the runtime's, so it must be used.
#[test]
fn the_answer_of_an_attempt_still_running_is_not_thrown_away() {
    let (settled, delivered, _) = settle(
        Settling::new("cmd-logical".into(), true),
        vec![ClientReply::Runtime(
            "session already has an active turn".into(),
        )],
    );
    assert!(
        matches!(
            &settled,
            EffectCompletion::SubmissionRejected { message, .. }
                if message == "session already has an active turn"
        ),
        "{settled:?}"
    );
    assert!(delivered.is_empty());
}

/// The runtime proved the outcome unrecoverable: that is an answer, so
/// redelivery stops for good — no further attempt carries the old id.
#[test]
fn an_unresolvable_answer_ends_redelivery_for_good() {
    let (settled, delivered, _) = settle(
        Settling::new("cmd-logical".into(), false),
        vec![ClientReply::OutcomeUnknown, ClientReply::Unresolvable],
    );
    assert!(
        matches!(
            &settled,
            EffectCompletion::SubmissionUnresolvable { command_id } if command_id == "cmd-logical"
        ),
        "{settled:?}"
    );
    assert_eq!(delivered.len(), 2);
}

#[test]
fn the_pause_grows_to_its_cap() {
    let mut s = Settling::new("c".into(), false);
    let mut pauses = Vec::new();
    for _ in 0..6 {
        if let SettleStep::Redeliver { pause_ms, .. } = s.next() {
            pauses.push(pause_ms);
        }
    }
    assert_eq!(pauses, vec![500, 1000, 2000, 4000, 5000, 5000]);
}

#[test]
fn a_first_attempt_settles_or_stays_open() {
    let FirstAttempt::Settled(done) =
        first_submission_attempt(Some(DeliveryAnswer::Delivered), "c".into())
    else {
        panic!("answered");
    };
    assert!(!done.resync);
    let FirstAttempt::Settled(done) =
        first_submission_attempt(Some(DeliveryAnswer::Rejected("no".into())), "c".into())
    else {
        panic!("answered");
    };
    assert!(done.resync);
    let FirstAttempt::Open(timed_out) = first_submission_attempt(None, "c".into()) else {
        panic!("no answer yet");
    };
    assert!(timed_out.in_flight);
    assert!(matches!(
        timed_out.unconfirmed().what,
        EffectCompletion::SubmissionUnconfirmed { .. }
    ));
    let FirstAttempt::Open(open) =
        first_submission_attempt(Some(DeliveryAnswer::NoAnswer), "c".into())
    else {
        panic!("no answer");
    };
    assert!(!open.in_flight);
}

#[test]
fn every_reply_has_a_meaning() {
    assert!(matches!(
        delivery_answer(ClientReply::Failed("closed".into())),
        DeliveryAnswer::Rejected(m) if m == "closed"
    ));
    assert!(matches!(
        delivery_answer(ClientReply::Lost),
        DeliveryAnswer::NoAnswer
    ));
    let c = command_completion(Some(DeliveryAnswer::Rejected("busy".into())));
    assert!(c.resync && matches!(c.what, EffectCompletion::CommandRejected { .. }));
    let c = command_completion(None);
    assert!(c.resync && matches!(c.what, EffectCompletion::CommandUncertain));
    let c = command_completion(Some(DeliveryAnswer::Delivered));
    assert!(!c.resync && matches!(c.what, EffectCompletion::CommandDelivered));
    let c = interaction_completion(false, "a:1".into());
    assert!(c.resync && matches!(c.what, EffectCompletion::InteractionUncertain { .. }));
    let c = interaction_completion(true, "a:1".into());
    assert!(!c.resync && matches!(c.what, EffectCompletion::InteractionDelivered { .. }));
}

fn note() -> Notification {
    Notification {
        level: NotificationLevel::Info,
        message: "hi".into(),
    }
}

#[test]
fn missing_web_launcher_does_not_call_a_local_daemon_remote() {
    assert!(
        !WEB_LAUNCHER_UNAVAILABLE.contains("远程"),
        "{WEB_LAUNCHER_UNAVAILABLE}"
    );
    assert!(
        !WEB_LAUNCHER_UNAVAILABLE.contains("remote"),
        "{WEB_LAUNCHER_UNAVAILABLE}"
    );
    assert!(
        !WEB_LAUNCHER_UNAVAILABLE.contains("leveler web --connect"),
        "{WEB_LAUNCHER_UNAVAILABLE}"
    );
}

#[test]
fn notification_expires_after_ttl() {
    let mut s = state();
    s.notification = Some(note());
    let base: u64 = 1_000_000;
    let mut shown = None;
    // First sighting: stamped, not cleared.
    assert!(!expire_notification(&mut s, &mut shown, base));
    assert!(s.notification.is_some());
    // Advance the clock past the TTL: cleared and reported.
    shown = Some((note(), base));
    assert!(expire_notification(
        &mut s,
        &mut shown,
        base + NOTIFICATION_TTL_INFO
    ));
    assert!(s.notification.is_none());
}

#[test]
fn replaced_notification_restarts_the_clock() {
    let mut s = state();
    s.notification = Some(note());
    let now: u64 = 1_000_000;
    let mut shown = Some((
        Notification {
            level: NotificationLevel::Warning,
            message: "old".into(),
        },
        now,
    ));
    // Different message on screen: re-stamp, do not clear.
    assert!(!expire_notification(&mut s, &mut shown, now));
    assert!(s.notification.is_some());
}

#[test]
fn quit_confirmation_notification_does_not_expire() {
    let mut s = state();
    s.quit_armed = true;
    s.notification = Some(Notification {
        level: NotificationLevel::Info,
        message: "再按一次 Ctrl+C 退出".into(),
    });
    let now: u64 = 1_000_000;
    let mut shown = Some((
        Notification {
            level: NotificationLevel::Info,
            message: "再按一次 Ctrl+C 退出".into(),
        },
        now,
    ));

    assert!(!expire_notification(&mut s, &mut shown, now));
    assert!(s.quit_armed);
    assert_eq!(
        s.notification.as_ref().map(|n| n.message.as_str()),
        Some("再按一次 Ctrl+C 退出")
    );
    assert!(!expire_notification(&mut s, &mut shown, u64::MAX));
}

#[test]
fn session_exit_hint_includes_full_reopen_command() {
    let id = "c1be5e5e-c3f8-4caa-abf4-18f66eb0aa57";
    let hint = session_exit_hint(id);
    assert!(
        hint.contains(&format!("leveler resume {id}")),
        "must be a full copy-paste reopen command: {hint}"
    );
    // The reopen line must clear to end of line right after the id so stale
    // primary-screen content can't append a stray char to the command.
    assert!(
        hint.contains(&format!("leveler resume {id}\x1b[K")),
        "reopen line must clear residue after the id: {hint:?}"
    );
}

#[test]
fn error_notification_is_sticky() {
    let mut s = state();
    s.notification = Some(Notification {
        level: NotificationLevel::Error,
        message: "boom".into(),
    });
    let now: u64 = 1_000_000;
    let mut shown = Some((
        Notification {
            level: NotificationLevel::Error,
            message: "boom".into(),
        },
        now,
    ));
    assert!(!expire_notification(&mut s, &mut shown, now));
    assert_eq!(
        s.notification.as_ref().map(|n| n.message.as_str()),
        Some("boom")
    );
}

#[test]
fn an_expired_warning_disarms_the_escalation() {
    let mut s = state();
    s.cancel_armed = true;
    s.notification = Some(Notification {
        level: NotificationLevel::Warning,
        message: "w".into(),
    });
    let mut shown = None;
    assert!(!expire_notification(&mut s, &mut shown, 10));
    assert!(!expire_notification(&mut s, &mut shown, 7999));
    assert!(!expire_notification(&mut s, &mut shown, 3), "a clock set back");
    assert!(expire_notification(&mut s, &mut shown, 8010));
    assert!(!s.cancel_armed);
    assert!(shown.is_none());
}

fn host(all: bool) -> HostAbilities {
    HostAbilities {
        web_launcher: all,
        url_opener: all,
        remote_launcher: all,
    }
}

#[test]
fn a_connected_client_delivers_commands() {
    let mut s = state();
    let Dispatch::Deliver(DeliveryJob::Command {
        session_id,
        command,
    }) = dispatch_effect(&mut s, Effect::Send(7u8), host(true))
    else {
        panic!("delivered");
    };
    assert_eq!((session_id.as_str(), command), ("s1", 7));
    s.runtime_connected = false;
    assert!(matches!(
        dispatch_effect(&mut s, Effect::Send(7u8), host(true)),
        Dispatch::Done
    ));
    let notice = s.notification.as_ref().expect("told");
    assert_eq!(notice.level, NotificationLevel::Error);
    assert_eq!(notice.message, s.t().commands_disabled_disconnected);
}

#[test]
fn an_answer_keeps_its_command_id() {
    let mut s = state();
    s.interaction_command_ids
        .push(("a:1".to_string(), "old".to_string()));
    let restore = PendingInteraction::Approval(ApprovalRequest {
        id: "1".into(),
        tool: "run_command".into(),
        summary: "git push".into(),
        command: None,
        risks: Vec::new(),
        call_id: None,
        always_persists: false,
    });
    let Dispatch::Deliver(DeliveryJob::Interaction {
        key, command_id, ..
    }) = dispatch_effect(
        &mut s,
        Effect::SendInteraction {
            command: (),
            restore,
            command_id: "cmd-9".into(),
        },
        host(true),
    )
    else {
        panic!("delivered");
    };
    assert_eq!((key.as_str(), command_id.as_str()), ("a:1", "cmd-9"));
    assert_eq!(
        s.interaction_command_ids,
        vec![("a:1".to_string(), "cmd-9".to_string())]
    );
    s.runtime_connected = false;
    let asked = PendingInteraction::Clarification(ClarificationRequest {
        id: "1".into(),
        question: "which branch?".into(),
        options: Vec::new(),
    });
    let r = dispatch_effect(
        &mut s,
        Effect::SendInteraction {
            command: (),
            restore: asked,
            command_id: "cmd-10".into(),
        },
        host(true),
    );
    assert!(matches!(
        r,
        Dispatch::RestoreInteraction(PendingInteraction::Clarification(_))
    ));
    assert_eq!(s.interaction_command_ids.len(), 2);
    assert!(s.notification.as_ref().unwrap().message.contains("未发送"));
    // Another id for a key that is there takes the place of the old one.
    let asked = PendingInteraction::Clarification(ClarificationRequest {
        id: "1".into(),
        question: "which branch?".into(),
        options: Vec::new(),
    });
    let again = Effect::SendInteraction { command: (), restore: asked, command_id: "cmd-11".into() };
    let _ = dispatch_effect(&mut s, again, host(true));
    assert_eq!(s.interaction_command_ids.len(), 2);
    assert_eq!(s.interaction_command_ids[1].1, "cmd-11");
}

#[test]
fn what_the_host_cannot_do_is_said() {
    let mut s = state();
    let r: Dispatch<()> = dispatch_effect(&mut s, Effect::StartWeb, host(false));
    assert!(
        matches!(r, Dispatch::WebUnavailable { message } if message == WEB_LAUNCHER_UNAVAILABLE)
    );
    let r: Dispatch<()> = dispatch_effect(&mut s, Effect::StartWeb, host(true));
    assert!(matches!(r, Dispatch::LaunchWeb));
    let r: Dispatch<()> =
        dispatch_effect(&mut s, Effect::OpenWebUrl("http://x".into()), host(false));
    assert!(matches!(
        r,
        Dispatch::UrlUnavailable { url, message }
            if url == "http://x" && message == "当前主机没有可用的 URL 打开器"
    ));
    let r: Dispatch<()> =
        dispatch_effect(&mut s, Effect::StartRemote { local: true }, host(true));
    assert!(matches!(
        r,
        Dispatch::AskRemote {
            request: RemoteRequest::Invite { local: true },
            poll: true
        }
    ));
    let r: Dispatch<()> =
        dispatch_effect(&mut s, Effect::AnswerPairing { accept: false }, host(true));
    assert!(matches!(
        r,
        Dispatch::AskRemote {
            request: RemoteRequest::Reject,
            poll: false
        }
    ));
    let r: Dispatch<()> =
        dispatch_effect(&mut s, Effect::AnswerPairing { accept: true }, host(false));
    assert!(matches!(r, Dispatch::RemoteUnavailable { .. }));
    assert!(s.running);
    let r: Dispatch<()> = dispatch_effect(&mut s, Effect::Quit, host(true));
    assert!(matches!(r, Dispatch::Done));
    assert!(!s.running);
}

#[test]
fn the_remote_side_is_asked_until_a_phone_waits() {
    assert!(keep_polling(0, true, false));
    assert!(!keep_polling(1, true, true));
    assert!(!keep_polling(1, false, false));
    assert!(!keep_polling(600, true, false));
}

#[test]
fn a_broken_stream_is_said() {
    let mut s = state();
    resync_failed(&mut s, "timeout");
    assert_eq!(
        s.notification.as_ref().unwrap().message,
        "事件流滞后后重同步失败：timeout"
    );
    assert!(s.runtime_connected);
    stream_closed(&mut s);
    assert!(!s.runtime_connected);
    assert_eq!(
        s.notification.as_ref().unwrap().message,
        "与运行时的事件流已断开"
    );
}

#[test]
fn the_turn_clock_runs_only_while_busy() {
    let mut s = state();
    s.status = RuntimeStatus::Busy;
    advance_clock(&mut s, 5_000);
    assert_eq!((s.tick, s.elapsed_secs), (1, 0));
    advance_clock(&mut s, 8_999);
    assert_eq!((s.tick, s.elapsed_secs), (2, 3));
    s.status = RuntimeStatus::Idle;
    advance_clock(&mut s, 20_000);
    assert_eq!((s.turn_started_at_ms, s.elapsed_secs), (None, 0));
    s.tick = u64::MAX;
    advance_clock(&mut s, 20_000);
    assert_eq!(s.tick, 0);
}

#[test]
fn frames_are_painted_when_something_shows() {
    assert!(wants_paint(true, false, true, false));
    assert!(wants_paint(false, true, true, false));
    assert!(!wants_paint(false, true, false, false));
    assert!(wants_paint(false, false, false, true));
    assert!(!wants_paint(false, false, true, true));
    let mut s = state();
    assert!(update_clock_label(&mut s, "10:01".into()));
    assert!(!update_clock_label(&mut s, "10:01".into()));
    s.active_screen = Screen::Help;
    assert!(!take_jump(&mut s));
    s.jump_to_bottom = true;
    assert!(take_jump(&mut s));
    assert_eq!(s.active_screen, Screen::Conversation);
    assert!(follows_other_session(&s, "s2"));
    assert!(!follows_other_session(&s, "s1"));
}

fn key(c: char) -> KeyPress {
    KeyPress {
        release: false,
        control: false,
        alt: false,
        character: Some(c),
    }
}

#[test]
fn a_burst_of_keys_is_one_text() {
    let mut s = state();
    let mut burst = Burst::begin(&s, &key('a')).expect("typed");
    assert!(burst.feed(Some(&key('b'))));
    assert!(!burst.feed(Some(&KeyPress {
        control: true,
        ..key('c')
    })));
    assert!(!burst.feed(None));
    assert_eq!(burst.text, "ab");
    assert_eq!(plain_text_char(&key('\u{7}')), None);
    assert_eq!(
        plain_text_char(&KeyPress {
            release: true,
            ..key('a')
        }),
        None
    );
    s.active_screen = Screen::Help;
    assert!(Burst::begin(&s, &key('a')).is_none());
}

#[test]
fn what_is_kept_on_exit() {
    assert!(draft_is_kept(" x "));
    assert!(!draft_is_kept(" \n "));
    let history: Vec<String> = (0..130).map(|i| i.to_string()).collect();
    let tail = history_tail(&history);
    assert_eq!(tail.len(), 100);
    assert_eq!(tail[0], "30");
    assert_eq!(history_tail(&vec!["a".to_string()]), vec!["a"]);
}

#[test]
fn an_edit_outside_reports_the_terminal_first() {
    assert_eq!(
        editor_outcome(Ok("text".into()), Ok(())),
        Ok("text".to_string())
    );
    assert_eq!(
        editor_outcome(Err("exit 1".into()), Ok(())),
        Err("exit 1".to_string())
    );
    assert_eq!(
        editor_outcome(Ok("text".into()), Err("tty".into())),
        Err("终端未能恢复：tty".to_string())
    );
    assert_eq!(editor_not_started("tty"), "无法让出终端：tty");
    assert_eq!(
        TuiError::Io("broken pipe".into()).message(),
        "terminal io error: broken pipe"
    );
}

#[test]
fn another_session_is_followed_and_a_lag_is_made_good() {
    let mut s = state();
    let own = stream_step(&mut s, Received::Event { opened: Some("s1".into()) });
    assert!(matches!(own, StreamStep::Fold { follow: None }));
    let other = stream_step(&mut s, Received::Event { opened: Some("s2".into()) });
    assert!(matches!(other, StreamStep::Fold { follow: Some(id) } if id == "s2"));
    let plain = stream_step(&mut s, Received::Event { opened: None });
    assert!(matches!(plain, StreamStep::Fold { follow: None }));
    assert!(matches!(stream_step(&mut s, Received::Lagged), StreamStep::Resync));
    assert!(s.runtime_connected && s.notification.is_none());
    assert!(matches!(stream_step(&mut s, Received::Closed), StreamStep::Stop));
    assert!(!s.runtime_connected);
}

#[test]
fn a_round_moves_every_clock() {
    let mut s = state();
    s.status = RuntimeStatus::Busy;
    s.clock_label = "10:00".into();
    let mut shown = None;
    assert!(!after_event(&mut s, &mut shown, "10:00".into(), 1_000));
    assert_eq!((s.tick, s.elapsed_secs), (1, 0));
    assert!(after_event(&mut s, &mut shown, "10:01".into(), 4_000));
    assert_eq!((s.tick, s.elapsed_secs), (2, 3));
    s.jump_to_bottom = true;
    s.active_screen = Screen::Help;
    assert!(after_event(&mut s, &mut shown, "10:01".into(), 4_100));
    assert!(s.active_screen == Screen::Conversation && !s.jump_to_bottom);
    s.notification = Some(Notification { level: NotificationLevel::Info, message: "hi".into() });
    assert!(!after_event(&mut s, &mut shown, "10:01".into(), 5_000));
    assert!(after_event(&mut s, &mut shown, "10:01".into(), 5_000 + NOTIFICATION_TTL_INFO));
    assert!(s.notification.is_none());
}

#[test]
fn a_saved_history_loads_again() {
    let history: Vec<String> = vec!["say \"hi\"".into(), "两行\n文本".into(), "\\ \u{1}".into()];
    let text = saved_history(&history).expect("texts always print");
    assert_eq!(text, "[\"say \\\"hi\\\"\",\"两行\\n文本\",\"\\\\ \\u0001\"]");
    assert_eq!(loaded_history(&text), Some(history));
    let long: Vec<String> = (0..130).map(|i| i.to_string()).collect();
    let kept = loaded_history(&saved_history(&long).unwrap()).unwrap();
    assert_eq!(kept, long[30..].to_vec());
    assert_eq!(saved_history(&Vec::new()).as_deref(), Some("[]"));
}

#[test]
fn a_broken_history_file_is_no_history() {
    assert_eq!(loaded_history(""), None);
    assert_eq!(loaded_history("[\"a\", 3]"), None);
    assert_eq!(loaded_history("{\"a\": \"b\"}"), None);
    assert_eq!(
        loaded_history(" [ \"a\", \"b\" ] "),
        Some(vec!["a".to_string(), "b".to_string()])
    );
}
