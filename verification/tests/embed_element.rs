use servo::embed::{
    about_blank_url, setup_step_for_url, CredentialsMode, EmbedContext, HTMLEmbedElement,
    LoadData, NavigationHistoryBehavior, NetworkError, ParsedUrl, PipelineMessage, PipelineType, RequestMode, ResponseAction,
    SetupStep, UpdatePipelineIdReason,
};
use servo::id::{test_pipeline_id, test_webview_id, PipelineId, PipelineNamespace, PipelineNamespaceId};

fn active_context() -> EmbedContext {
    EmbedContext {
        in_a_document: true,
        node_document_active: true,
        not_media_element_descendant: true,
        is_rendered: true,
    }
}

fn namespace() -> Option<PipelineNamespace> {
    let mut slot = None;
    PipelineNamespace::install(&mut slot, PipelineNamespaceId(11));
    slot
}

fn url(s: &str, scheme: &str) -> ParsedUrl {
    ParsedUrl { serialization: s.to_string(), scheme: scheme.to_string() }
}

#[test]
fn new_element_represents_nothing() {
    let e = HTMLEmbedElement::new();
    assert!(e.represents_nothing());
    assert!(!e.potentially_active());
    assert!(!e.is_potentially_active(&active_context()));
    assert_eq!(e.Type(), "");
    assert_eq!(e.Width(), "");
    assert_eq!(e.Src("https://example.com/"), "");
}

#[test]
fn setting_src_makes_the_element_potentially_active() {
    let mut e = HTMLEmbedElement::new();
    assert!(e.SetSrc("movie.swf".to_string(), &active_context()));
    assert!(!e.represents_nothing());
    let mut detached = active_context();
    detached.in_a_document = false;
    assert!(!e.is_potentially_active(&detached));
    assert!(!e.bind_to_tree(&detached));
    assert!(e.bind_to_tree(&active_context()));
}

#[test]
fn empty_src_is_not_potentially_active() {
    let mut e = HTMLEmbedElement::new();
    assert!(!e.SetSrc(String::new(), &active_context()));
    assert!(!e.represents_nothing());
    assert!(e.SetType("image/svg+xml".to_string(), &active_context()) == false);
    let mut typed = HTMLEmbedElement::new();
    assert!(typed.SetType("application/x-shockwave-flash".to_string(), &active_context()));
    assert_eq!(typed.Type(), "application/x-shockwave-flash");
}

#[test]
fn src_getter_resolves_against_the_base_url() {
    let mut e = HTMLEmbedElement::new();
    e.attributes.src = Some("movie.swf".to_string());
    assert_eq!(e.Src("https://example.com/dir/page.html"), "https://example.com/dir/movie.swf");
    e.attributes.src = Some("http://[::1".to_string());
    assert_eq!(e.Src("https://example.com/"), "http://[::1");
}

#[test]
fn first_draft_setup_fetches_the_parsed_url() {
    let mut e = HTMLEmbedElement::new();
    assert!(matches!(e.element_setup(), SetupStep::Nothing));
    e.attributes.src = Some("http://example.com".to_string());
    match e.element_setup() {
        SetupStep::Fetch(request) => {
            assert_eq!(request.url.serialization, "http://example.com/");
            assert_eq!(request.url.scheme, "http");
            assert_eq!(request.credentials_mode, CredentialsMode::Include);
            assert_eq!(request.mode, RequestMode::Navigate);
            assert!(request.use_url_credentials);
        },
        _ => panic!("expected a fetch"),
    }
    e.attributes.src = Some("relative.swf".to_string());
    assert!(matches!(e.element_setup(), SetupStep::Nothing));
}

#[test]
fn setup_without_src_displays_no_plugin() {
    let mut namespace = namespace();
    let mut e = HTMLEmbedElement::new();
    e.create_child_navigable(&mut namespace, test_webview_id(), test_pipeline_id());
    assert!(matches!(e.setup("https://example.com/"), SetupStep::DisplayNoPlugin));
    assert!(e.pipeline_id().is_none());
    assert!(e.browsing_context_id().is_none());
    assert!(e.webview_id().is_none());
}

#[test]
fn setup_with_relative_src_fetches() {
    let mut e = HTMLEmbedElement::new();
    e.attributes.src = Some("a/b.svg".to_string());
    match e.setup("https://example.com/x/") {
        SetupStep::Fetch(request) => assert_eq!(request.url.serialization, "https://example.com/x/a/b.svg"),
        _ => panic!("expected a fetch"),
    }
    assert!(matches!(setup_step_for_url(None), SetupStep::Nothing));
}

#[test]
fn child_navigable_starts_with_about_blank() {
    let mut namespace = namespace();
    let mut e = HTMLEmbedElement::new();
    let start = e.create_child_navigable(&mut namespace, test_webview_id(), test_pipeline_id()).unwrap();
    assert_eq!(start.message, PipelineMessage::ScriptNewIFrame);
    assert!(start.attach_layout);
    assert_eq!(start.browsing_context_id.index.get(), 1);
    assert_eq!(start.new_pipeline_id.index.get(), 2);
    assert!(start.old_pipeline_id.is_none());
    assert!(start.parent_pipeline_id == test_pipeline_id());
    assert_eq!(start.history_handling, NavigationHistoryBehavior::Push);
    assert!(e.pipeline_id() == Some(start.new_pipeline_id));
    assert!(e.about_blank_pipeline_id == Some(start.new_pipeline_id));
    assert!(e.has_load_blocker);
    assert_eq!(start.load_data.url.serialization, "about:blank");
    let blank = about_blank_url();
    assert_eq!(blank.serialization, "about:blank");
    assert_eq!(blank.scheme, "about");
}

#[test]
fn navigation_is_pending_until_its_pipeline_is_updated() {
    let mut namespace = namespace();
    let mut e = HTMLEmbedElement::new();
    let blank = e.create_child_navigable(&mut namespace, test_webview_id(), test_pipeline_id()).unwrap();
    let load = LoadData { url: url("https://example.com/", "https"), js_eval_no_content: false };
    let nav = e.navigate_or_reload_content_navigable(&mut namespace, load, test_pipeline_id(), NavigationHistoryBehavior::Auto, true).unwrap();
    assert_eq!(nav.message, PipelineMessage::ScriptLoadedURLInIFrame);
    assert_eq!(nav.history_handling, NavigationHistoryBehavior::Auto);
    assert!(nav.parent_pipeline_id == test_pipeline_id());
    assert!(nav.old_pipeline_id == Some(blank.new_pipeline_id));
    assert_eq!(nav.load_data.url.serialization, "https://example.com/");
    assert!(e.pipeline_id() == Some(blank.new_pipeline_id));
    assert!(e.pending_pipeline_id == Some(nav.new_pipeline_id));
    // A navigation to another pipeline is ignored.
    let mut other_slot = None;
    PipelineNamespace::install(&mut other_slot, PipelineNamespaceId(99));
    let other = PipelineId::new(&mut other_slot);
    assert!(!e.update_pipeline_id(other, UpdatePipelineIdReason::Navigation));
    assert!(e.pipeline_id() == Some(blank.new_pipeline_id));
    assert!(e.update_pipeline_id(nav.new_pipeline_id, UpdatePipelineIdReason::Navigation));
    assert!(e.pipeline_id() == Some(nav.new_pipeline_id));
    assert!(e.has_load_blocker);
    // A traversal always applies, and ends the blocking of the load.
    assert!(e.update_pipeline_id(other, UpdatePipelineIdReason::Traversal));
    assert!(e.pipeline_id() == Some(other));
    assert!(!e.has_load_blocker);
}

#[test]
fn javascript_url_that_stops_navigation_starts_nothing() {
    let mut namespace = namespace();
    let mut e = HTMLEmbedElement::new();
    e.create_child_navigable(&mut namespace, test_webview_id(), test_pipeline_id());
    let load = LoadData { url: url("javascript:void(0)", "javascript"), js_eval_no_content: false };
    assert!(e.start_new_pipeline(&mut namespace, load, PipelineType::Navigation, test_pipeline_id(), NavigationHistoryBehavior::Push, false).is_none());
    assert!(!e.has_load_blocker);
    let load = LoadData { url: url("javascript:1", "javascript"), js_eval_no_content: true };
    let start = e.start_new_pipeline(&mut namespace, load, PipelineType::Navigation, test_pipeline_id(), NavigationHistoryBehavior::Push, true).unwrap();
    assert_eq!(start.new_pipeline_id.index.get(), 3);
    assert!(!e.has_load_blocker);
}

#[test]
fn no_navigable_no_pipeline() {
    let mut namespace = namespace();
    let mut e = HTMLEmbedElement::new();
    let load = LoadData { url: url("https://example.com/", "https"), js_eval_no_content: false };
    assert!(e.start_new_pipeline(&mut namespace, load, PipelineType::Navigation, test_pipeline_id(), NavigationHistoryBehavior::Push, true).is_none());
    assert!(!e.has_load_blocker);
}

#[test]
fn responses() {
    let mut namespace = namespace();
    let mut e = HTMLEmbedElement::new();
    assert!(matches!(
        e.process_response(&mut namespace, Err(NetworkError), test_webview_id(), test_pipeline_id(), true),
        ResponseAction::FireLoadEvent
    ));
    assert!(e.determine_content_type(true).is_none());
    let final_url = url("https://example.com/a.svg", "https");
    assert!(matches!(
        e.process_response(&mut namespace, Ok(final_url.clone()), test_webview_id(), test_pipeline_id(), true),
        ResponseAction::DisplayNoPlugin
    ));
    e.attributes.type_ = Some("image/svg+xml".to_string());
    assert_eq!(e.determine_content_type(true).unwrap(), "image/svg+xml");
    assert!(e.determine_content_type(false).is_none());
    match e.process_response(&mut namespace, Ok(final_url.clone()), test_webview_id(), test_pipeline_id(), true) {
        ResponseAction::Navigate { created, navigation } => {
            let created = created.unwrap();
            let navigation = navigation.unwrap();
            assert!(navigation.old_pipeline_id == Some(created.new_pipeline_id));
            assert_eq!(created.history_handling, NavigationHistoryBehavior::Push);
            assert_eq!(navigation.history_handling, NavigationHistoryBehavior::Replace);
            assert!(navigation.parent_pipeline_id == test_pipeline_id());
            assert!(e.pending_pipeline_id == Some(navigation.new_pipeline_id));
        },
        _ => panic!("expected a navigation"),
    }
    match e.process_response(&mut namespace, Ok(final_url), test_webview_id(), test_pipeline_id(), true) {
        ResponseAction::Navigate { created, navigation } => {
            assert!(created.is_none());
            assert!(navigation.is_some());
        },
        _ => panic!("expected a navigation"),
    }
}

#[test]
fn other_attributes() {
    let mut e = HTMLEmbedElement::new();
    e.attributes.width = Some("300".to_string());
    e.attributes.height = Some("150".to_string());
    e.attributes.align = Some("left".to_string());
    e.attributes.name = Some("plugin".to_string());
    assert_eq!(e.Width(), "300");
    assert_eq!(e.Height(), "150");
    assert_eq!(e.Align(), "left");
    assert_eq!(e.Name(), "plugin");
}

#[test]
fn network_error_needs_no_namespace() {
    let mut namespace: Option<PipelineNamespace> = None;
    let mut e = HTMLEmbedElement::new();
    e.attributes.type_ = Some("image/svg+xml".to_string());
    assert!(matches!(
        e.process_response(&mut namespace, Err(NetworkError), test_webview_id(), test_pipeline_id(), true),
        ResponseAction::FireLoadEvent
    ));
    assert!(namespace.is_none());
}

#[test]
fn setting_src_keeps_the_navigable() {
    let mut namespace = namespace();
    let mut e = HTMLEmbedElement::new();
    let start = e.create_child_navigable(&mut namespace, test_webview_id(), test_pipeline_id()).unwrap();
    e.SetSrc("a.swf".to_string(), &active_context());
    assert!(e.pipeline_id() == Some(start.new_pipeline_id));
    assert!(e.has_load_blocker);
}
