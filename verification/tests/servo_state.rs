use servo::id::{PipelineNamespace, PipelineNamespaceId, WebViewId};
use servo::embed::ParsedUrl;
use servo::servo::{
    history_update, webview_focus_after_blurred, webview_focus_after_focused, AllowOrDeny, EmbedderAction,
    EmbedderMessageKind, Servo, ServoError, ShutdownState,
};

#[test]
fn shutting_down_sends_exit_once() {
    let mut slot = None;
    let mut s = Servo::new(&mut slot);
    assert!(s.start_shutting_down());
    assert_eq!(s.shutdown_state, ShutdownState::ShuttingDown);
    assert!(!s.start_shutting_down());
    s.finish_shutting_down();
    assert!(!s.start_shutting_down());
    assert_eq!(s.shutdown_state, ShutdownState::FinishedShuttingDown);
}

#[test]
fn animating_changes_are_reported_once() {
    let mut slot = None;
    let mut s = Servo::new(&mut slot);
    assert!(!s.animating());
    assert_eq!(s.send_animating_changed_messages(false, &vec![false, true]), Some(true));
    assert!(s.animating());
    assert_eq!(s.send_animating_changed_messages(false, &vec![true]), None);
    assert_eq!(s.send_animating_changed_messages(false, &vec![]), Some(false));
    assert_eq!(s.send_animating_changed_messages(true, &vec![]), Some(true));
}

#[test]
fn focus_goes_to_exactly_one_webview() {
    let mut slot = None;
    PipelineNamespace::install(&mut slot, PipelineNamespaceId(4));
    let a = WebViewId::new(&mut slot);
    let b = WebViewId::new(&mut slot);
    let c = WebViewId::new(&mut slot);
    assert_eq!(webview_focus_after_focused(&vec![a, b, c], b), vec![false, true, false]);
    assert_eq!(webview_focus_after_blurred(3), vec![false, false, false]);
}

#[test]
fn new_reserves_namespace_zero() {
    let mut slot = None;
    let s = Servo::new(&mut slot);
    assert_eq!(s, Servo { shutdown_state: ShutdownState::NotShuttingDown, animating: false });
    let first = WebViewId::new(&mut slot);
    assert_eq!(first.0.namespace_id, PipelineNamespaceId(0));
    assert_eq!(first.0.index.get(), 1);
}

fn three_webviews() -> (WebViewId, WebViewId, WebViewId) {
    let mut slot = None;
    PipelineNamespace::install(&mut slot, PipelineNamespaceId(5));
    (WebViewId::new(&mut slot), WebViewId::new(&mut slot), WebViewId::new(&mut slot))
}

#[test]
fn embedder_messages_are_routed() {
    let (a, b, dead) = three_webviews();
    let live = vec![a, b];
    let mut slot = None;
    let mut s = Servo::new(&mut slot);
    assert!(s.handle_embedder_message(EmbedderMessageKind::Status(a), &live) == EmbedderAction::ToWebView(a));
    assert!(s.handle_embedder_message(EmbedderMessageKind::Status(dead), &live) == EmbedderAction::Ignore);
    assert!(
        s.handle_embedder_message(EmbedderMessageKind::AllowUnload(b), &live)
            == EmbedderAction::ToWebViewWithDefault { webview_id: b, default_response: AllowOrDeny::Allow }
    );
    assert!(
        s.handle_embedder_message(EmbedderMessageKind::PromptPermission(b), &live)
            == EmbedderAction::ToWebViewWithDefault { webview_id: b, default_response: AllowOrDeny::Deny }
    );
    assert!(s.handle_embedder_message(EmbedderMessageKind::ShowNotification(Some(dead)), &live) == EmbedderAction::ToServoDelegate);
    assert!(s.handle_embedder_message(EmbedderMessageKind::WebResourceRequested(None), &live) == EmbedderAction::ToServoDelegate);
    assert!(s.handle_embedder_message(EmbedderMessageKind::WebResourceRequested(Some(a)), &live) == EmbedderAction::ToWebView(a));
    assert!(
        s.handle_embedder_message(EmbedderMessageKind::OnDevtoolsStarted { started: false }, &live)
            == EmbedderAction::ReportError(ServoError::DevtoolsFailedToStart)
    );
    assert!(s.handle_embedder_message(EmbedderMessageKind::OnDevtoolsStarted { started: true }, &live) == EmbedderAction::DevtoolsServerStarted);
    assert!(
        s.handle_embedder_message(EmbedderMessageKind::RequestDevtoolsConnection, &live)
            == EmbedderAction::RequestDevtoolsConnection { default_response: AllowOrDeny::Deny }
    );
    assert!(s.handle_embedder_message(EmbedderMessageKind::GetWindowRect(dead), &live) == EmbedderAction::ReplyDefault);
    assert!(s.handle_embedder_message(EmbedderMessageKind::GetScreenMetrics(a), &live) == EmbedderAction::ReplyFromWebView(a));
    assert!(s.handle_embedder_message(EmbedderMessageKind::ReportProfile, &live) == EmbedderAction::Ignore);
    assert!(
        s.handle_embedder_message(
            EmbedderMessageKind::HistoryChanged { webview_id: a, url_count: 2, current_index: 1 },
            &live
        ) == EmbedderAction::ChangeHistory { webview_id: a, current_index: 1 }
    );
    assert!(
        s.handle_embedder_message(
            EmbedderMessageKind::HistoryChanged { webview_id: dead, url_count: 0, current_index: 3 },
            &live
        ) == EmbedderAction::Ignore
    );
    assert_eq!(s.shutdown_state, ShutdownState::NotShuttingDown);
    assert!(s.handle_embedder_message(EmbedderMessageKind::ShutdownComplete, &live) == EmbedderAction::FinishShuttingDown);
    assert_eq!(s.shutdown_state, ShutdownState::FinishedShuttingDown);
}

#[test]
fn focus_messages() {
    let (a, b, dead) = three_webviews();
    let live = vec![a, b];
    let mut slot = None;
    let mut s = Servo::new(&mut slot);
    assert!(
        s.handle_embedder_message(EmbedderMessageKind::WebViewFocused { webview_id: b, focus_result: true }, &live)
            == EmbedderAction::Focus { focus_live_webviews: Some(b), complete_focus: Some(b) }
    );
    assert!(
        s.handle_embedder_message(EmbedderMessageKind::WebViewFocused { webview_id: b, focus_result: false }, &live)
            == EmbedderAction::Focus { focus_live_webviews: None, complete_focus: Some(b) }
    );
    assert!(
        s.handle_embedder_message(EmbedderMessageKind::WebViewFocused { webview_id: dead, focus_result: true }, &live)
            == EmbedderAction::Focus { focus_live_webviews: Some(dead), complete_focus: None }
    );
    assert!(s.handle_embedder_message(EmbedderMessageKind::WebViewBlurred, &live) == EmbedderAction::BlurAll);
}

#[test]
fn spinning_stops_after_shutdown_completes() {
    let (a, _, _) = three_webviews();
    let live = vec![a];
    let mut slot = None;
    let mut s = Servo::new(&mut slot);
    let step = s.spin_event_loop(&vec![EmbedderMessageKind::Status(a)], &live, false);
    assert!(step.keep_spinning);
    assert!(!step.report_lost_connection);
    assert_eq!(step.actions.len(), 1);
    let messages = vec![
        EmbedderMessageKind::Keyboard(a),
        EmbedderMessageKind::ShutdownComplete,
        EmbedderMessageKind::Status(a),
    ];
    let step = s.spin_event_loop(&messages, &live, true);
    assert!(!step.keep_spinning);
    assert!(step.report_lost_connection);
    assert_eq!(step.actions.len(), 2);
    assert!(step.actions[1] == EmbedderAction::FinishShuttingDown);
    let step = s.spin_event_loop(&messages, &live, true);
    assert!(!step.keep_spinning);
    assert!(!step.report_lost_connection);
    assert!(step.actions.is_empty());
}

fn url(s: &str) -> ParsedUrl {
    ParsedUrl { serialization: s.to_string(), scheme: "https".to_string() }
}

#[test]
fn history_change_shows_the_current_url() {
    let urls = vec![url("https://a.example/"), url("https://b.example/"), url("https://c.example/")];
    let update = history_update(urls.clone(), 1);
    assert_eq!(update.urls, urls);
    assert_eq!(update.current_index, 1);
    assert_eq!(update.current_url, url("https://b.example/"));
    assert_ne!(update.current_url, update.urls[0]);
}

#[test]
fn messages_after_shutdown_are_not_handled() {
    let (a, _, _) = three_webviews();
    let live = vec![a];
    let mut slot = None;
    let mut s = Servo::new(&mut slot);
    // The history change after the end of shutting down names an index past its URLs; it
    // is never handled.
    let messages = vec![
        EmbedderMessageKind::ShutdownComplete,
        EmbedderMessageKind::HistoryChanged { webview_id: a, url_count: 1, current_index: 5 },
    ];
    let step = s.spin_event_loop(&messages, &live, false);
    assert_eq!(step.actions.len(), 1);
    assert!(step.actions[0] == EmbedderAction::FinishShuttingDown);
    assert!(!step.keep_spinning);
    let step = s.spin_event_loop(&messages, &live, false);
    assert!(step.actions.is_empty());
}
