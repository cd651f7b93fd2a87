//! The decisions of an embedded engine instance about shutting down, spinning its event
//! loop, and telling its delegate whether any content animates.

use vstd::prelude::*;
use crate::embed::ParsedUrl;
use crate::id::{BrowsingContextIndex, NamespaceIndex, PipelineNamespace, PipelineNamespaceId, WebViewId};

verus! {

/// How far the engine is in shutting down.
#[derive(Clone, Copy, Debug, PartialEq, Eq, Structural)]
pub enum ShutdownState {
    NotShuttingDown,
    ShuttingDown,
    FinishedShuttingDown,
}

/// The order of the shutdown states: shutting down only goes forward.
pub open spec fn shutdown_rank(s: ShutdownState) -> int {
    match s {
        ShutdownState::NotShuttingDown => 0,
        ShutdownState::ShuttingDown => 1,
        ShutdownState::FinishedShuttingDown => 2,
    }
}

/// The decision state of an engine instance: how far it is in shutting down, and whether
/// any of its webviews (or WebXR content) animates.
#[derive(Clone, Copy, Debug, PartialEq, Eq, Structural)]
pub struct Servo {
    pub shutdown_state: ShutdownState,
    pub animating: bool,
}

/// The state after a request to shut down, and whether the constellation is to be told to
/// exit: only the first request does anything.
pub open spec fn start_shutting_down_spec(s: Servo) -> (Servo, bool) {
    if s.shutdown_state == ShutdownState::NotShuttingDown {
        (Servo { shutdown_state: ShutdownState::ShuttingDown, ..s }, true)
    } else {
        (s, false)
    }
}

/// Whether any content animates: WebXR runs, or a webview animates.
pub open spec fn any_animating(webxr_running: bool, webviews_animating: Seq<bool>) -> bool {
    webxr_running || exists|i: int| 0 <= i < webviews_animating.len() && #[trigger] webviews_animating[i]
}

impl Servo {
    /// A new instance, not shutting down and not animating. It reserves namespace 0 of the
    /// calling thread, held in `slot`, for the webview ids that it creates; the thread must
    /// have no namespace yet.
    pub fn new(slot: &mut Option<PipelineNamespace>) -> (r: Servo)
        requires
            *old(slot) is None,
        ensures
            r == (Servo { shutdown_state: ShutdownState::NotShuttingDown, animating: false }),
            *final(slot) matches Some(ns) && ns.spec_id() == PipelineNamespaceId(0) && ns.spec_index() == 0,
    {
        PipelineNamespace::install(slot, PipelineNamespaceId(0));
        Servo { shutdown_state: ShutdownState::NotShuttingDown, animating: false }
    }

    /// Whether any webview of this instance has animating content, or WebXR content runs:
    /// the embedder should then spin the event loop at regular intervals.
    pub fn animating(&self) -> (r: bool)
        ensures
            r == self.animating,
    {
        self.animating
    }

    /// Requests shutdown. Returns whether the constellation is to be told to exit, which is
    /// only so when shutdown was not already requested.
    pub fn start_shutting_down(&mut self) -> (r: bool)
        ensures
            (*final(self), r) == start_shutting_down_spec(*old(self)),
    {
        if self.shutdown_state != ShutdownState::NotShuttingDown {
            return false;
        }
        self.shutdown_state = ShutdownState::ShuttingDown;
        true
    }

    /// The constellation has completed its shutdown.
    pub fn finish_shutting_down(&mut self)
        ensures
            *final(self) == (Servo { shutdown_state: ShutdownState::FinishedShuttingDown, ..*old(self) }),
    {
        self.shutdown_state = ShutdownState::FinishedShuttingDown;
    }

    /// Records whether content animates now. Returns the new value when it changed, which the
    /// delegate is then to be told; nothing otherwise.
    pub fn send_animating_changed_messages(&mut self, webxr_running: bool, webviews_animating: &Vec<bool>) -> (r: Option<bool>)
        ensures
            final(self).shutdown_state == old(self).shutdown_state,
            final(self).animating == any_animating(webxr_running, webviews_animating@),
            r == if any_animating(webxr_running, webviews_animating@) != old(self).animating {
                Some(any_animating(webxr_running, webviews_animating@))
            } else {
                None
            },
    {
        let mut animating = webxr_running;
        let mut i: usize = 0;
        while i < webviews_animating.len() && !animating
            invariant
                i <= webviews_animating.len(),
                animating ==> any_animating(webxr_running, webviews_animating@),
                !animating ==> !webxr_running && forall|j: int| 0 <= j < i ==> !(#[trigger] webviews_animating@[j]),
            decreases webviews_animating.len() - i,
        {
            if webviews_animating[i] {
                assert(webviews_animating@[i as int]);
                animating = true;
            }
            i = i + 1;
        }
        if animating != self.animating {
            self.animating = animating;
            Some(animating)
        } else {
            None
        }
    }
}

/// A message from the engine to the embedder, with what routing it reads: the webview that
/// it is for, and the flags that decide how it is handled.
#[derive(Clone, Copy, PartialEq, Eq)]
pub enum EmbedderMessageKind {
    ShutdownComplete,
    Status(WebViewId),
    ChangePageTitle(WebViewId),
    MoveTo(WebViewId),
    ResizeTo(WebViewId),
    ShowSimpleDialog(WebViewId),
    ShowContextMenu(WebViewId),
    AllowNavigationRequest(WebViewId),
    AllowOpeningWebView(WebViewId),
    WebViewClosed(WebViewId),
    WebViewFocused { webview_id: WebViewId, focus_result: bool },
    WebViewBlurred,
    AllowUnload(WebViewId),
    FinishJavaScriptEvaluation,
    Keyboard(WebViewId),
    ClearClipboard(WebViewId),
    GetClipboardText(WebViewId),
    SetClipboardText(WebViewId),
    SetCursor(WebViewId),
    NewFavicon(WebViewId),
    NotifyLoadStatusChanged(WebViewId),
    HistoryTraversalComplete(WebViewId),
    /// The history of a webview changed: the number of its URLs and the current one.
    HistoryChanged { webview_id: WebViewId, url_count: usize, current_index: usize },
    NotifyFullscreenStateChanged(WebViewId),
    WebResourceRequested(Option<WebViewId>),
    Panic(WebViewId),
    GetSelectedBluetoothDevice(WebViewId),
    SelectFiles(WebViewId),
    RequestAuthentication(WebViewId),
    PromptPermission(WebViewId),
    ShowIME(WebViewId),
    HideIME(WebViewId),
    ReportProfile,
    MediaSessionEvent(WebViewId),
    /// The devtools server started (`true`) or failed to start (`false`).
    OnDevtoolsStarted { started: bool },
    RequestDevtoolsConnection,
    PlayGamepadHapticEffect(WebViewId),
    StopGamepadHapticEffect(WebViewId),
    ShowNotification(Option<WebViewId>),
    ShowFormControl(WebViewId),
    GetWindowRect(WebViewId),
    GetScreenMetrics(WebViewId),
}

/// An answer to a request that the embedder may allow or deny.
#[derive(Clone, Copy, Debug, PartialEq, Eq, Structural)]
pub enum AllowOrDeny {
    Allow,
    Deny,
}

/// An error that the engine reports to its delegate.
#[derive(Clone, Copy, Debug, PartialEq, Eq, Structural)]
pub enum ServoError {
    LostConnectionWithBackend,
    DevtoolsFailedToStart,
}

/// What handling an embedder message calls for.
#[derive(Clone, Copy, PartialEq, Eq)]
pub enum EmbedderAction {
    /// The constellation has shut down: shutting down is finished.
    FinishShuttingDown,
    /// Handle the message with the live webview it is for (the webview's own state or its
    /// delegate).
    ToWebView(WebViewId),
    /// Ask the delegate of the live webview, with the answer that stands if the embedder
    /// gives none.
    ToWebViewWithDefault { webview_id: WebViewId, default_response: AllowOrDeny },
    /// Handle the message with the engine's own delegate.
    ToServoDelegate,
    /// Ask the engine's delegate whether a devtools client may connect, with the answer that
    /// stands if the embedder gives none.
    RequestDevtoolsConnection { default_response: AllowOrDeny },
    /// Tell the engine's delegate that the devtools server started.
    DevtoolsServerStarted,
    /// Report an error to the engine's delegate.
    ReportError(ServoError),
    /// Hand the result to the JavaScript evaluator.
    ToJavaScriptEvaluator,
    /// Focus: when `focus_live_webviews` names a webview, every live webview is focused
    /// exactly when it is that one; then, when `complete_focus` names a webview, it completes
    /// the focus request.
    Focus { focus_live_webviews: Option<WebViewId>, complete_focus: Option<WebViewId> },
    /// Every live webview loses the focus.
    BlurAll,
    /// Reply with what the delegate of the live webview tells of the screen.
    ReplyFromWebView(WebViewId),
    /// Reply with the default window rectangle or screen metrics.
    ReplyDefault,
    /// Tell the delegate of the live webview of its changed history, the URL list with the
    /// current index, and have the webview show the URL at that index: see
    /// [`history_update`].
    ChangeHistory { webview_id: WebViewId, current_index: usize },
    /// Nothing to do: the webview is not live, or the message is ignored.
    Ignore,
}

/// The webview is among the live ones.
pub open spec fn is_live(webview_id: WebViewId, live_webviews: Seq<WebViewId>) -> bool {
    exists|i: int| 0 <= i < live_webviews.len() && #[trigger] live_webviews[i] == webview_id
}

/// The webview that a message is simply handed to, when it is live.
pub open spec fn plain_target(message: EmbedderMessageKind) -> Option<WebViewId> {
    match message {
        EmbedderMessageKind::Status(id) => Some(id),
        EmbedderMessageKind::ChangePageTitle(id) => Some(id),
        EmbedderMessageKind::MoveTo(id) => Some(id),
        EmbedderMessageKind::ResizeTo(id) => Some(id),
        EmbedderMessageKind::ShowSimpleDialog(id) => Some(id),
        EmbedderMessageKind::ShowContextMenu(id) => Some(id),
        EmbedderMessageKind::AllowNavigationRequest(id) => Some(id),
        EmbedderMessageKind::AllowOpeningWebView(id) => Some(id),
        EmbedderMessageKind::WebViewClosed(id) => Some(id),
        EmbedderMessageKind::Keyboard(id) => Some(id),
        EmbedderMessageKind::ClearClipboard(id) => Some(id),
        EmbedderMessageKind::GetClipboardText(id) => Some(id),
        EmbedderMessageKind::SetClipboardText(id) => Some(id),
        EmbedderMessageKind::SetCursor(id) => Some(id),
        EmbedderMessageKind::NewFavicon(id) => Some(id),
        EmbedderMessageKind::NotifyLoadStatusChanged(id) => Some(id),
        EmbedderMessageKind::HistoryTraversalComplete(id) => Some(id),
        EmbedderMessageKind::NotifyFullscreenStateChanged(id) => Some(id),
        EmbedderMessageKind::Panic(id) => Some(id),
        EmbedderMessageKind::GetSelectedBluetoothDevice(id) => Some(id),
        EmbedderMessageKind::SelectFiles(id) => Some(id),
        EmbedderMessageKind::RequestAuthentication(id) => Some(id),
        EmbedderMessageKind::ShowIME(id) => Some(id),
        EmbedderMessageKind::HideIME(id) => Some(id),
        EmbedderMessageKind::MediaSessionEvent(id) => Some(id),
        EmbedderMessageKind::PlayGamepadHapticEffect(id) => Some(id),
        EmbedderMessageKind::StopGamepadHapticEffect(id) => Some(id),
        EmbedderMessageKind::ShowFormControl(id) => Some(id),
        _ => None,
    }
}

/// A message is acceptable: the current index of a changed history of a live webview is
/// one of its URLs.
pub open spec fn message_is_valid(message: EmbedderMessageKind, live_webviews: Seq<WebViewId>) -> bool {
    message matches EmbedderMessageKind::HistoryChanged { webview_id, url_count, current_index }
        ==> (is_live(webview_id, live_webviews) ==> current_index < url_count)
}

/// The state and the action after handling one embedder message.
pub open spec fn embedder_message_action_spec(
    s: Servo,
    message: EmbedderMessageKind,
    live_webviews: Seq<WebViewId>,
) -> (Servo, EmbedderAction) {
    if plain_target(message) is Some {
        let id = plain_target(message).unwrap();
        (s, if is_live(id, live_webviews) { EmbedderAction::ToWebView(id) } else { EmbedderAction::Ignore })
    } else {
        match message {
            EmbedderMessageKind::ShutdownComplete => (
                Servo { shutdown_state: ShutdownState::FinishedShuttingDown, ..s },
                EmbedderAction::FinishShuttingDown,
            ),
            EmbedderMessageKind::WebViewFocused { webview_id, focus_result } => (
                s,
                EmbedderAction::Focus {
                    focus_live_webviews: if focus_result { Some(webview_id) } else { None },
                    complete_focus: if is_live(webview_id, live_webviews) { Some(webview_id) } else { None },
                },
            ),
            EmbedderMessageKind::WebViewBlurred => (s, EmbedderAction::BlurAll),
            EmbedderMessageKind::HistoryChanged { webview_id, current_index, .. } => (
                s,
                if is_live(webview_id, live_webviews) {
                    EmbedderAction::ChangeHistory { webview_id, current_index }
                } else {
                    EmbedderAction::Ignore
                },
            ),
            EmbedderMessageKind::AllowUnload(id) => (
                s,
                if is_live(id, live_webviews) {
                    EmbedderAction::ToWebViewWithDefault { webview_id: id, default_response: AllowOrDeny::Allow }
                } else {
                    EmbedderAction::Ignore
                },
            ),
            EmbedderMessageKind::PromptPermission(id) => (
                s,
                if is_live(id, live_webviews) {
                    EmbedderAction::ToWebViewWithDefault { webview_id: id, default_response: AllowOrDeny::Deny }
                } else {
                    EmbedderAction::Ignore
                },
            ),
            EmbedderMessageKind::FinishJavaScriptEvaluation => (s, EmbedderAction::ToJavaScriptEvaluator),
            EmbedderMessageKind::WebResourceRequested(target) => (
                s,
                match target {
                    Some(id) => if is_live(id, live_webviews) { EmbedderAction::ToWebView(id) } else { EmbedderAction::ToServoDelegate },
                    None => EmbedderAction::ToServoDelegate,
                },
            ),
            EmbedderMessageKind::ShowNotification(target) => (
                s,
                match target {
                    Some(id) => if is_live(id, live_webviews) { EmbedderAction::ToWebView(id) } else { EmbedderAction::ToServoDelegate },
                    None => EmbedderAction::ToServoDelegate,
                },
            ),
            EmbedderMessageKind::OnDevtoolsStarted { started } => (
                s,
                if started {
                    EmbedderAction::DevtoolsServerStarted
                } else {
                    EmbedderAction::ReportError(ServoError::DevtoolsFailedToStart)
                },
            ),
            EmbedderMessageKind::RequestDevtoolsConnection => (
                s,
                EmbedderAction::RequestDevtoolsConnection { default_response: AllowOrDeny::Deny },
            ),
            EmbedderMessageKind::GetWindowRect(id) => (
                s,
                if is_live(id, live_webviews) { EmbedderAction::ReplyFromWebView(id) } else { EmbedderAction::ReplyDefault },
            ),
            EmbedderMessageKind::GetScreenMetrics(id) => (
                s,
                if is_live(id, live_webviews) { EmbedderAction::ReplyFromWebView(id) } else { EmbedderAction::ReplyDefault },
            ),
            _ => (s, EmbedderAction::Ignore),
        }
    }
}

/// The message names a webview, and that webview is live.
pub open spec fn names_live_webview(target: Option<WebViewId>, live_webviews: Seq<WebViewId>) -> bool {
    match target {
        Some(id) => is_live(id, live_webviews),
        None => false,
    }
}

/// Notifications and resource requests go to the webview they name when it is live, and to
/// the engine's delegate only when they name no live webview. No message is handed to a
/// webview that is not live, and only the end of the constellation's shutdown changes the
/// engine's state.
pub proof fn lemma_messages_reach_live_webviews(
    s: Servo,
    message: EmbedderMessageKind,
    live_webviews: Seq<WebViewId>,
)
    ensures
        ({
            let (s1, action) = embedder_message_action_spec(s, message, live_webviews);
            &&& (message matches EmbedderMessageKind::ShowNotification(target) ==> if names_live_webview(
                target,
                live_webviews,
            ) {
                action == EmbedderAction::ToWebView(target.unwrap())
            } else {
                action == EmbedderAction::ToServoDelegate
            })
            &&& (message matches EmbedderMessageKind::WebResourceRequested(target) ==> if names_live_webview(
                target,
                live_webviews,
            ) {
                action == EmbedderAction::ToWebView(target.unwrap())
            } else {
                action == EmbedderAction::ToServoDelegate
            })
            &&& (action matches EmbedderAction::ToWebView(id) ==> is_live(id, live_webviews))
            &&& (action matches EmbedderAction::ToWebViewWithDefault { webview_id, .. }
                ==> is_live(webview_id, live_webviews))
            &&& (action matches EmbedderAction::ReplyFromWebView(id) ==> is_live(id, live_webviews))
            &&& (action matches EmbedderAction::ChangeHistory { webview_id, .. }
                ==> is_live(webview_id, live_webviews))
            &&& (action matches EmbedderAction::Focus { complete_focus: Some(id), .. }
                ==> is_live(id, live_webviews))
            &&& (message !is ShutdownComplete ==> s1 == s)
        }),
{
}

/// The state and the actions after handling queued embedder messages in order, stopping
/// after the message that finishes shutting down.
pub open spec fn handle_messages_spec(
    s: Servo,
    messages: Seq<EmbedderMessageKind>,
    live_webviews: Seq<WebViewId>,
) -> (Servo, Seq<EmbedderAction>)
    decreases messages.len(),
{
    if messages.len() == 0 {
        (s, Seq::empty())
    } else {
        let (s1, action) = embedder_message_action_spec(s, messages[0], live_webviews);
        if s1.shutdown_state == ShutdownState::FinishedShuttingDown {
            (s1, seq![action])
        } else {
            let (s2, rest) = handle_messages_spec(s1, messages.drop_first(), live_webviews);
            (s2, seq![action] + rest)
        }
    }
}

/// The messages that a spin handles are acceptable: each message up to and including the
/// one that finishes shutting down, and none after it.
pub open spec fn handled_messages_valid(
    s: Servo,
    messages: Seq<EmbedderMessageKind>,
    live_webviews: Seq<WebViewId>,
) -> bool
    decreases messages.len(),
{
    if messages.len() == 0 {
        true
    } else {
        let (s1, _action) = embedder_message_action_spec(s, messages[0], live_webviews);
        &&& message_is_valid(messages[0], live_webviews)
        &&& (s1.shutdown_state == ShutdownState::FinishedShuttingDown
            || handled_messages_valid(s1, messages.drop_first(), live_webviews))
    }
}

/// What a live webview's history change comes to: the URL list that its delegate is told
/// of, the current index in it, and the URL that the webview then shows.
pub struct HistoryUpdate {
    pub urls: Vec<ParsedUrl>,
    pub current_index: usize,
    pub current_url: ParsedUrl,
}

/// The history change of a live webview: its delegate is told of `urls`, in the same order,
/// with `current_index`, and the webview then shows the URL at `current_index`.
pub fn history_update(urls: Vec<ParsedUrl>, current_index: usize) -> (r: HistoryUpdate)
    requires
        current_index < urls.len(),
    ensures
        r.urls@ == urls@,
        r.current_index == current_index,
        r.current_url == urls@[current_index as int],
{
    let current = &urls[current_index];
    let current_url = ParsedUrl {
        serialization: current.serialization.clone(),
        scheme: current.scheme.clone(),
    };
    HistoryUpdate { urls, current_index, current_url }
}

/// What one spin of the event loop does besides its work with the compositor.
pub struct SpinStep {
    /// The actions of the embedder messages that were handled, in order.
    pub actions: Vec<EmbedderAction>,
    /// The lost connection with the constellation is to be reported to the delegate.
    pub report_lost_connection: bool,
    /// Spinning goes on: shutting down has not finished.
    pub keep_spinning: bool,
}

fn contains_webview(live_webviews: &Vec<WebViewId>, webview_id: WebViewId) -> (r: bool)
    ensures
        r == is_live(webview_id, live_webviews@),
{
    let mut i: usize = 0;
    while i < live_webviews.len()
        invariant
            i <= live_webviews.len(),
            forall|j: int| 0 <= j < i ==> #[trigger] live_webviews@[j] != webview_id,
        decreases live_webviews.len() - i,
    {
        let id = live_webviews[i];
        proof {
            NamespaceIndex::<BrowsingContextIndex>::lemma_eq_fields(id.0, webview_id.0);
            if id.0 == webview_id.0 {
                assert(id == webview_id);
            }
        }
        if id == webview_id {
            assert(live_webviews@[i as int] == webview_id);
            return true;
        }
        i = i + 1;
    }
    false
}

fn live_action(live_webviews: &Vec<WebViewId>, webview_id: WebViewId) -> (r: EmbedderAction)
    ensures
        r == if is_live(webview_id, live_webviews@) { EmbedderAction::ToWebView(webview_id) } else { EmbedderAction::Ignore },
{
    if contains_webview(live_webviews, webview_id) {
        EmbedderAction::ToWebView(webview_id)
    } else {
        EmbedderAction::Ignore
    }
}

impl Servo {
    /// Handles an embedder message, given the webviews that are live: a message for a webview
    /// goes to it when it is live and is dropped otherwise; resource requests and
    /// notifications without a live webview go to the engine's delegate; unload requests are
    /// allowed and permission requests denied unless the embedder answers; the focus of the
    /// webviews follows a successful focus request; screen queries get a default reply
    /// without a live webview; and the end of the constellation's shutdown finishes shutting
    /// down.
    pub fn handle_embedder_message(&mut self, message: EmbedderMessageKind, live_webviews: &Vec<WebViewId>) -> (r: EmbedderAction)
        requires
            message_is_valid(message, live_webviews@),
        ensures
            (*final(self), r) == embedder_message_action_spec(*old(self), message, live_webviews@),
    {
        match message {
            EmbedderMessageKind::ShutdownComplete => {
                self.finish_shutting_down();
                EmbedderAction::FinishShuttingDown
            },
            EmbedderMessageKind::Status(id) => live_action(live_webviews, id),
            EmbedderMessageKind::ChangePageTitle(id) => live_action(live_webviews, id),
            EmbedderMessageKind::MoveTo(id) => live_action(live_webviews, id),
            EmbedderMessageKind::ResizeTo(id) => live_action(live_webviews, id),
            EmbedderMessageKind::ShowSimpleDialog(id) => live_action(live_webviews, id),
            EmbedderMessageKind::ShowContextMenu(id) => live_action(live_webviews, id),
            EmbedderMessageKind::AllowNavigationRequest(id) => live_action(live_webviews, id),
            EmbedderMessageKind::AllowOpeningWebView(id) => live_action(live_webviews, id),
            EmbedderMessageKind::WebViewClosed(id) => live_action(live_webviews, id),
            EmbedderMessageKind::WebViewFocused { webview_id, focus_result } => {
                let focus_live_webviews = if focus_result { Some(webview_id) } else { None };
                let complete_focus = if contains_webview(live_webviews, webview_id) {
                    Some(webview_id)
                } else {
                    None
                };
                EmbedderAction::Focus { focus_live_webviews, complete_focus }
            },
            EmbedderMessageKind::WebViewBlurred => EmbedderAction::BlurAll,
            EmbedderMessageKind::AllowUnload(id) => {
                if contains_webview(live_webviews, id) {
                    EmbedderAction::ToWebViewWithDefault { webview_id: id, default_response: AllowOrDeny::Allow }
                } else {
                    EmbedderAction::Ignore
                }
            },
            EmbedderMessageKind::FinishJavaScriptEvaluation => EmbedderAction::ToJavaScriptEvaluator,
            EmbedderMessageKind::Keyboard(id) => live_action(live_webviews, id),
            EmbedderMessageKind::ClearClipboard(id) => live_action(live_webviews, id),
            EmbedderMessageKind::GetClipboardText(id) => live_action(live_webviews, id),
            EmbedderMessageKind::SetClipboardText(id) => live_action(live_webviews, id),
            EmbedderMessageKind::SetCursor(id) => live_action(live_webviews, id),
            EmbedderMessageKind::NewFavicon(id) => live_action(live_webviews, id),
            EmbedderMessageKind::NotifyLoadStatusChanged(id) => live_action(live_webviews, id),
            EmbedderMessageKind::HistoryTraversalComplete(id) => live_action(live_webviews, id),
            EmbedderMessageKind::HistoryChanged { webview_id, current_index, .. } => {
                if contains_webview(live_webviews, webview_id) {
                    EmbedderAction::ChangeHistory { webview_id, current_index }
                } else {
                    EmbedderAction::Ignore
                }
            },
            EmbedderMessageKind::NotifyFullscreenStateChanged(id) => live_action(live_webviews, id),
            EmbedderMessageKind::WebResourceRequested(target) => match target {
                Some(id) => if contains_webview(live_webviews, id) {
                    EmbedderAction::ToWebView(id)
                } else {
                    EmbedderAction::ToServoDelegate
                },
                None => EmbedderAction::ToServoDelegate,
            },
            EmbedderMessageKind::Panic(id) => live_action(live_webviews, id),
            EmbedderMessageKind::GetSelectedBluetoothDevice(id) => live_action(live_webviews, id),
            EmbedderMessageKind::SelectFiles(id) => live_action(live_webviews, id),
            EmbedderMessageKind::RequestAuthentication(id) => live_action(live_webviews, id),
            EmbedderMessageKind::PromptPermission(id) => {
                if contains_webview(live_webviews, id) {
                    EmbedderAction::ToWebViewWithDefault { webview_id: id, default_response: AllowOrDeny::Deny }
                } else {
                    EmbedderAction::Ignore
                }
            },
            EmbedderMessageKind::ShowIME(id) => live_action(live_webviews, id),
            EmbedderMessageKind::HideIME(id) => live_action(live_webviews, id),
            EmbedderMessageKind::ReportProfile => EmbedderAction::Ignore,
            EmbedderMessageKind::MediaSessionEvent(id) => live_action(live_webviews, id),
            EmbedderMessageKind::OnDevtoolsStarted { started } => {
                if started {
                    EmbedderAction::DevtoolsServerStarted
                } else {
                    EmbedderAction::ReportError(ServoError::DevtoolsFailedToStart)
                }
            },
            EmbedderMessageKind::RequestDevtoolsConnection => {
                EmbedderAction::RequestDevtoolsConnection { default_response: AllowOrDeny::Deny }
            },
            EmbedderMessageKind::PlayGamepadHapticEffect(id) => live_action(live_webviews, id),
            EmbedderMessageKind::StopGamepadHapticEffect(id) => live_action(live_webviews, id),
            EmbedderMessageKind::ShowNotification(target) => match target {
                Some(id) => if contains_webview(live_webviews, id) {
                    EmbedderAction::ToWebView(id)
                } else {
                    EmbedderAction::ToServoDelegate
                },
                None => EmbedderAction::ToServoDelegate,
            },
            EmbedderMessageKind::ShowFormControl(id) => live_action(live_webviews, id),
            EmbedderMessageKind::GetWindowRect(id) => {
                if contains_webview(live_webviews, id) {
                    EmbedderAction::ReplyFromWebView(id)
                } else {
                    EmbedderAction::ReplyDefault
                }
            },
            EmbedderMessageKind::GetScreenMetrics(id) => {
                if contains_webview(live_webviews, id) {
                    EmbedderAction::ReplyFromWebView(id)
                } else {
                    EmbedderAction::ReplyDefault
                }
            },
        }
    }

    /// One spin of the event loop, given the queued embedder messages, the live webviews and
    /// whether the connection with the constellation is lost. Once shutting down has
    /// finished, it does nothing and spinning stops. Otherwise the messages are handled in
    /// order, stopping after the one that finishes shutting down; the lost connection is
    /// reported; and spinning goes on unless shutting down has now finished.
    pub fn spin_event_loop(
        &mut self,
        embedder_messages: &Vec<EmbedderMessageKind>,
        live_webviews: &Vec<WebViewId>,
        constellation_disconnected: bool,
    ) -> (r: SpinStep)
        requires
            old(self).shutdown_state != ShutdownState::FinishedShuttingDown
                ==> handled_messages_valid(*old(self), embedder_messages@, live_webviews@),
        ensures
            old(self).shutdown_state == ShutdownState::FinishedShuttingDown ==> {
                &&& *final(self) == *old(self)
                &&& r.actions@ == Seq::<EmbedderAction>::empty()
                &&& !r.report_lost_connection
                &&& !r.keep_spinning
            },
            old(self).shutdown_state != ShutdownState::FinishedShuttingDown ==> {
                &&& (*final(self), r.actions@) == handle_messages_spec(*old(self), embedder_messages@, live_webviews@)
                &&& r.report_lost_connection == constellation_disconnected
                &&& r.keep_spinning == (final(self).shutdown_state != ShutdownState::FinishedShuttingDown)
            },
    {
        if self.shutdown_state == ShutdownState::FinishedShuttingDown {
            return SpinStep { actions: Vec::new(), report_lost_connection: false, keep_spinning: false };
        }
        let mut actions: Vec<EmbedderAction> = Vec::new();
        let mut i: usize = 0;
        let ghost s0 = *self;
        assert(embedder_messages@.skip(0) =~= embedder_messages@);
        while i < embedder_messages.len()
            invariant_except_break
                i <= embedder_messages.len(),
                handled_messages_valid(*self, embedder_messages@.skip(i as int), live_webviews@),
                self.shutdown_state != ShutdownState::FinishedShuttingDown,
                ({
                    let (sf, rest) = handle_messages_spec(*self, embedder_messages@.skip(i as int), live_webviews@);
                    (sf, actions@ + rest) == handle_messages_spec(s0, embedder_messages@, live_webviews@)
                }),
            ensures
                (*self, actions@) == handle_messages_spec(s0, embedder_messages@, live_webviews@),
            decreases embedder_messages.len() - i,
        {
            let ghost before = *self;
            let ghost rest = embedder_messages@.skip(i as int);
            assert(rest[0] == embedder_messages@[i as int]);
            assert(rest.drop_first() =~= embedder_messages@.skip(i as int + 1));
            let action = self.handle_embedder_message(embedder_messages[i], live_webviews);
            let ghost prev = actions@;
            actions.push(action);
            i = i + 1;
            if self.shutdown_state == ShutdownState::FinishedShuttingDown {
                assert(actions@ =~= prev + seq![action]);
                break;
            }
            proof {
                let (sf, tail) = handle_messages_spec(*self, embedder_messages@.skip(i as int), live_webviews@);
                assert(prev + (seq![action] + tail) =~= actions@ + tail);
            }
        }
        proof {
            if i == embedder_messages.len() && self.shutdown_state != ShutdownState::FinishedShuttingDown {
                assert(embedder_messages@.skip(i as int).len() == 0);
                assert(actions@ + Seq::<EmbedderAction>::empty() =~= actions@);
            }
        }
        let keep_spinning = self.shutdown_state != ShutdownState::FinishedShuttingDown;
        SpinStep { actions, report_lost_connection: constellation_disconnected, keep_spinning }
    }
}

/// The focus of each webview once the webview `focused_id` got the focus: exactly that
/// webview is focused.
pub fn webview_focus_after_focused(webview_ids: &Vec<WebViewId>, focused_id: WebViewId) -> (r: Vec<bool>)
    ensures
        r.len() == webview_ids.len(),
        forall|i: int| 0 <= i < r.len() ==> #[trigger] r@[i] == (webview_ids@[i] == focused_id),
{
    let mut focus: Vec<bool> = Vec::new();
    let mut i: usize = 0;
    while i < webview_ids.len()
        invariant
            i <= webview_ids.len(),
            focus.len() == i,
            forall|j: int| 0 <= j < i ==> #[trigger] focus@[j] == (webview_ids@[j] == focused_id),
        decreases webview_ids.len() - i,
    {
        let id = webview_ids[i];
        proof {
            crate::id::NamespaceIndex::<crate::id::BrowsingContextIndex>::lemma_eq_fields(id.0, focused_id.0);
            if id.0 == focused_id.0 {
                assert(id == focused_id);
            }
        }
        focus.push(id == focused_id);
        i = i + 1;
    }
    focus
}

/// The focus of each webview once the focus left all of them: none is focused.
pub fn webview_focus_after_blurred(count: usize) -> (r: Vec<bool>)
    ensures
        r.len() == count,
        forall|i: int| 0 <= i < r.len() ==> !(#[trigger] r@[i]),
{
    let mut focus: Vec<bool> = Vec::new();
    let mut i: usize = 0;
    while i < count
        invariant
            i <= count,
            focus.len() == i,
            forall|j: int| 0 <= j < i ==> !(#[trigger] focus@[j]),
        decreases count - i,
    {
        focus.push(false);
        i = i + 1;
    }
    focus
}

/// Shutting down only goes forward: no operation brings an instance back to an earlier
/// shutdown state.
pub proof fn lemma_shutdown_monotone(s: Servo)
    ensures
        shutdown_rank(start_shutting_down_spec(s).0.shutdown_state) >= shutdown_rank(s.shutdown_state),
        shutdown_rank(ShutdownState::FinishedShuttingDown) >= shutdown_rank(s.shutdown_state),
{
}

/// The constellation is told to exit at most once: after a request that told it, no later
/// request, in any state at least as far in shutting down, tells it again.
pub proof fn lemma_exit_requested_once(s0: Servo, s2: Servo)
    requires
        start_shutting_down_spec(s0).1,
        shutdown_rank(s2.shutdown_state) >= shutdown_rank(start_shutting_down_spec(s0).0.shutdown_state),
    ensures
        !start_shutting_down_spec(s2).1,
{
}

} // verus!
