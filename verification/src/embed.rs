//! The decisions of the `<embed>` element: when it represents nothing, when it is
//! potentially active, what its setup steps fetch, and how its child navigable and the
//! pipelines of that navigable come and go.
//!
//! The element's attributes and the facts about its place in the document that the decisions
//! read are handed in as plain values; the messages that the decisions call for are handed
//! back.

use vstd::prelude::*;
use vstd::string::StringExecFns;
use crate::id::{
    allocates, can_allocate, can_allocate_many, BrowsingContextId, NamespaceIndex, PipelineId,
    PipelineIndex, PipelineNamespace, WebViewId,
};

verus! {

/// A parsed URL: its serialization and its scheme.
#[derive(Clone, Debug, PartialEq, Eq)]
pub struct ParsedUrl {
    pub serialization: String,
    pub scheme: String,
}

/// The serialization and scheme of the URL that the URL parser makes of `input`, if it
/// accepts it.
pub uninterp spec fn spec_parse_url(input: Seq<char>) -> Option<(Seq<char>, Seq<char>)>;

/// The serialization and scheme of the URL that the URL parser makes of `input` relative to
/// the URL `base`, if it accepts both.
pub uninterp spec fn spec_parse_url_with_base(base: Seq<char>, input: Seq<char>) -> Option<(Seq<char>, Seq<char>)>;

impl ParsedUrl {
    pub open spec fn view_pair(self) -> (Seq<char>, Seq<char>) {
        (self.serialization@, self.scheme@)
    }
}

/// Parses `input` as an absolute URL with `url::Url::options().parse`. The result is the one
/// that the URL parser gives for this input: nothing more of it is stated here.
#[verifier::external_body]
fn parse_url(input: &str) -> (r: Option<ParsedUrl>)
    ensures
        r is Some <==> spec_parse_url(input@) is Some,
        r matches Some(u) ==> u.view_pair() == spec_parse_url(input@).unwrap(),
{
    match url::Url::options().parse(input) {
        Ok(u) => Some(ParsedUrl { serialization: u.as_str().to_string(), scheme: u.scheme().to_string() }),
        Err(_) => None,
    }
}

/// Parses `input` relative to the base URL `base` with
/// `url::Url::options().base_url(..).parse`, after parsing `base` with `url::Url::parse`.
/// The result is the one that the URL parser gives for these inputs: nothing more of it is
/// stated here.
#[verifier::external_body]
fn parse_url_with_base(base: &str, input: &str) -> (r: Option<ParsedUrl>)
    ensures
        r is Some <==> spec_parse_url_with_base(base@, input@) is Some,
        r matches Some(u) ==> u.view_pair() == spec_parse_url_with_base(base@, input@).unwrap(),
{
    match url::Url::parse(base) {
        Ok(b) => match url::Url::options().base_url(Some(&b)).parse(input) {
            Ok(u) => Some(ParsedUrl { serialization: u.as_str().to_string(), scheme: u.scheme().to_string() }),
            Err(_) => None,
        },
        Err(_) => None,
    }
}

/// The attributes of an `<embed>` element: each is absent or has a value.
#[derive(Clone, Debug)]
pub struct EmbedAttributes {
    pub src: Option<String>,
    pub type_: Option<String>,
    pub width: Option<String>,
    pub height: Option<String>,
    pub align: Option<String>,
    pub name: Option<String>,
}

/// What the element's activeness reads of its place in the document.
#[derive(Clone, Copy, Debug, PartialEq, Eq, Structural)]
pub struct EmbedContext {
    /// The element is in a document tree.
    pub in_a_document: bool,
    /// The element's node document is fully active.
    pub node_document_active: bool,
    /// The element is not a descendant of a media element.
    pub not_media_element_descendant: bool,
    /// The element is being rendered.
    pub is_rendered: bool,
}

/// The kind of pipeline that a navigation of the embedded content starts.
#[derive(Clone, Copy, Debug, PartialEq, Eq, Structural)]
pub enum PipelineType {
    InitialAboutBlank,
    Navigation,
}

/// How a navigation treats the session history: push a new entry, replace the current one,
/// or let the navigation decide.
#[derive(Clone, Copy, Debug, PartialEq, Eq, Structural)]
pub enum NavigationHistoryBehavior {
    Push,
    Auto,
    Replace,
}

/// Why the pipeline of a navigable changed.
#[derive(Clone, Copy, Debug, PartialEq, Eq, Structural)]
pub enum UpdatePipelineIdReason {
    Navigation,
    Traversal,
}

/// What a navigation asks of the embedded content's navigable.
#[derive(Clone, Debug)]
pub struct LoadData {
    /// The URL to load.
    pub url: ParsedUrl,
    /// Evaluating a `javascript:` URL gave no content to load.
    pub js_eval_no_content: bool,
}

/// The message that tells the constellation about a new pipeline.
#[derive(Clone, Copy, Debug, PartialEq, Eq, Structural)]
pub enum PipelineMessage {
    /// A new nested browsing context, with its initial `about:blank` document.
    ScriptNewIFrame,
    /// A navigation of an existing nested browsing context.
    ScriptLoadedURLInIFrame,
}

/// A pipeline that the element started: what the engine is to send and set up for it.
pub struct PipelineStart {
    pub message: PipelineMessage,
    pub browsing_context_id: BrowsingContextId,
    pub webview_id: WebViewId,
    /// The pipeline of the element's window.
    pub parent_pipeline_id: PipelineId,
    pub new_pipeline_id: PipelineId,
    pub old_pipeline_id: Option<PipelineId>,
    /// How the navigation treats the session history.
    pub history_handling: NavigationHistoryBehavior,
    /// The layout of the new pipeline is to be attached at once (initial `about:blank`).
    pub attach_layout: bool,
    /// What the new pipeline is to load.
    pub load_data: LoadData,
}

/// How the fetch that the setup steps start is made.
#[derive(Clone, Copy, Debug, PartialEq, Eq, Structural)]
pub enum CredentialsMode {
    Include,
}

/// The request mode of the fetch that the setup steps start.
#[derive(Clone, Copy, Debug, PartialEq, Eq, Structural)]
pub enum RequestMode {
    Navigate,
}

/// The request that the setup steps fetch: the URL, with destination `embed`, credentials
/// mode `include`, mode `navigate` and the use-URL-credentials flag set.
#[derive(Clone, Debug)]
pub struct EmbedFetchRequest {
    pub url: ParsedUrl,
    pub credentials_mode: CredentialsMode,
    pub mode: RequestMode,
    pub use_url_credentials: bool,
}

/// What the setup steps of the element do.
pub enum SetupStep {
    /// Nothing: there is no `src` attribute (in the first draft of the steps), or its value
    /// is not a URL.
    Nothing,
    /// Fetch the request.
    Fetch(EmbedFetchRequest),
    /// There is no `src` attribute: display no plugin.
    DisplayNoPlugin,
}

/// What the element does with the response to its fetch.
pub enum ResponseAction {
    /// The response is a network error: fire `load` at the element.
    FireLoadEvent,
    /// Navigate the content navigable, created first if there was none.
    Navigate { created: Option<PipelineStart>, navigation: Option<PipelineStart> },
    /// No plugin handles the content: display no plugin.
    DisplayNoPlugin,
}

/// The request of the setup steps for the URL that `src` parsed to; nothing when it did not
/// parse.
pub open spec fn setup_step_for_url_spec(parsed: Option<ParsedUrl>) -> SetupStep {
    match parsed {
        Some(url) => SetupStep::Fetch(
            EmbedFetchRequest {
                url,
                credentials_mode: CredentialsMode::Include,
                mode: RequestMode::Navigate,
                use_url_credentials: true,
            },
        ),
        None => SetupStep::Nothing,
    }
}

/// The request of the setup steps for the URL that `src` parsed to; nothing when it did not
/// parse.
pub fn setup_step_for_url(parsed: Option<ParsedUrl>) -> (r: SetupStep)
    ensures
        r == setup_step_for_url_spec(parsed),
{
    match parsed {
        Some(url) => SetupStep::Fetch(
            EmbedFetchRequest {
                url,
                credentials_mode: CredentialsMode::Include,
                mode: RequestMode::Navigate,
                use_url_credentials: true,
            },
        ),
        None => SetupStep::Nothing,
    }
}

/// The value of an attribute, or the empty string when it is absent.
pub open spec fn attribute_or_empty(attr: Option<String>) -> Seq<char> {
    match attr {
        Some(v) => v@,
        None => Seq::empty(),
    }
}

fn get_string_attribute(attr: &Option<String>) -> (r: String)
    ensures
        r@ == attribute_or_empty(*attr),
{
    match attr {
        Some(v) => v.clone(),
        None => String::new(),
    }
}

/// An `<embed>` element: its attributes, its child navigable and the pipelines of that
/// navigable.
pub struct HTMLEmbedElement {
    pub attributes: EmbedAttributes,
    pub webview_id: Option<WebViewId>,
    pub browsing_context_id: Option<BrowsingContextId>,
    pub pipeline_id: Option<PipelineId>,
    pub pending_pipeline_id: Option<PipelineId>,
    pub about_blank_pipeline_id: Option<PipelineId>,
    /// The element blocks the load of its document.
    pub has_load_blocker: bool,
}

impl HTMLEmbedElement {
    /// The element has neither a `src` nor a `type` attribute.
    pub open spec fn represents_nothing_spec(&self) -> bool {
        self.attributes.src is None && self.attributes.type_ is None
    }

    /// The element has a `src` or a `type` attribute, and its `src`, if present, is not empty.
    pub open spec fn potentially_active_spec(&self) -> bool {
        &&& (self.attributes.src is Some || self.attributes.type_ is Some)
        &&& (self.attributes.src matches Some(s) ==> s@.len() > 0)
    }

    /// Whether the element is potentially active in the given context.
    pub open spec fn is_potentially_active_spec(&self, context: EmbedContext) -> bool {
        &&& context.in_a_document
        &&& context.node_document_active
        &&& self.potentially_active_spec()
        &&& context.not_media_element_descendant
        &&& context.is_rendered
    }

    /// The element has no child navigable, no pipeline, and does not block its document.
    pub open spec fn has_no_navigable(&self) -> bool {
        &&& self.webview_id is None
        &&& self.browsing_context_id is None
        &&& self.pipeline_id is None
        &&& self.pending_pipeline_id is None
        &&& self.about_blank_pipeline_id is None
    }

    /// A new element without attributes.
    pub fn new() -> (r: HTMLEmbedElement)
        ensures
            r.attributes.src is None,
            r.attributes.type_ is None,
            r.attributes.width is None,
            r.attributes.height is None,
            r.attributes.align is None,
            r.attributes.name is None,
            r.has_no_navigable(),
            !r.has_load_blocker,
    {
        HTMLEmbedElement {
            attributes: EmbedAttributes {
                src: None,
                type_: None,
                width: None,
                height: None,
                align: None,
                name: None,
            },
            webview_id: None,
            browsing_context_id: None,
            pipeline_id: None,
            pending_pipeline_id: None,
            about_blank_pipeline_id: None,
            has_load_blocker: false,
        }
    }

    /// The element represents nothing: it has neither a `src` nor a `type` attribute.
    pub fn represents_nothing(&self) -> (r: bool)
        ensures
            r == self.represents_nothing_spec(),
    {
        self.attributes.src.is_none() && self.attributes.type_.is_none()
    }

    /// The attribute conditions of an element being potentially active: it has a `src` or a
    /// `type` attribute (or both), and its `src` attribute is absent or not empty.
    pub fn potentially_active(&self) -> (r: bool)
        ensures
            r == self.potentially_active_spec(),
    {
        let has_src_or_type = self.attributes.src.is_some() || self.attributes.type_.is_some();
        let src_attr_absent_or_not_empty = match &self.attributes.src {
            Some(s) => !s.as_str().is_empty(),
            None => true,
        };
        has_src_or_type && src_attr_absent_or_not_empty
    }

    /// Whether the element is potentially active: it is in a fully active document, has a
    /// `src` or `type` attribute and no empty `src`, is not inside a media element, and is
    /// being rendered.
    pub fn is_potentially_active(&self, context: &EmbedContext) -> (r: bool)
        ensures
            r == self.is_potentially_active_spec(*context),
    {
        let potentially_active = self.potentially_active();
        context.in_a_document && context.node_document_active && potentially_active
            && context.not_media_element_descendant && context.is_rendered
    }

    /// The `type` attribute, or the empty string.
    #[allow(non_snake_case)]
    pub fn Type(&self) -> (r: String)
        ensures
            r@ == attribute_or_empty(self.attributes.type_),
    {
        get_string_attribute(&self.attributes.type_)
    }

    /// The `width` attribute, or the empty string.
    #[allow(non_snake_case)]
    pub fn Width(&self) -> (r: String)
        ensures
            r@ == attribute_or_empty(self.attributes.width),
    {
        get_string_attribute(&self.attributes.width)
    }

    /// The `height` attribute, or the empty string.
    #[allow(non_snake_case)]
    pub fn Height(&self) -> (r: String)
        ensures
            r@ == attribute_or_empty(self.attributes.height),
    {
        get_string_attribute(&self.attributes.height)
    }

    /// The `align` attribute, or the empty string.
    #[allow(non_snake_case)]
    pub fn Align(&self) -> (r: String)
        ensures
            r@ == attribute_or_empty(self.attributes.align),
    {
        get_string_attribute(&self.attributes.align)
    }

    /// The `name` attribute, or the empty string.
    #[allow(non_snake_case)]
    pub fn Name(&self) -> (r: String)
        ensures
            r@ == attribute_or_empty(self.attributes.name),
    {
        get_string_attribute(&self.attributes.name)
    }

    /// The `src` attribute as a URL relative to the document's base URL: the empty string
    /// when it is absent, its value when that does not parse, and the parsed URL otherwise.
    #[allow(non_snake_case)]
    pub fn Src(&self, base_url: &str) -> (r: String)
        ensures
            r@ == match self.attributes.src {
                None => Seq::empty(),
                Some(v) => match spec_parse_url_with_base(base_url@, v@) {
                    Some(parsed) => parsed.0,
                    None => v@,
                },
            },
    {
        match &self.attributes.src {
            None => String::new(),
            Some(v) => match parse_url_with_base(base_url, v.as_str()) {
                Some(parsed) => parsed.serialization,
                None => v.clone(),
            },
        }
    }

    /// Sets the `src` attribute; returns whether the setup steps are then to run, which they
    /// are when the element is potentially active.
    #[allow(non_snake_case)]
    pub fn SetSrc(&mut self, value: String, context: &EmbedContext) -> (r: bool)
        ensures
            *final(self) == (HTMLEmbedElement {
                attributes: EmbedAttributes { src: Some(value), ..old(self).attributes },
                ..*old(self)
            }),
            r == final(self).is_potentially_active_spec(*context),
    {
        self.attributes.src = Some(value);
        self.is_potentially_active(context)
    }

    /// Sets the `type` attribute; returns whether the setup steps are then to run, which they
    /// are when the element is potentially active.
    #[allow(non_snake_case)]
    pub fn SetType(&mut self, value: String, context: &EmbedContext) -> (r: bool)
        ensures
            *final(self) == (HTMLEmbedElement {
                attributes: EmbedAttributes { type_: Some(value), ..old(self).attributes },
                ..*old(self)
            }),
            r == final(self).is_potentially_active_spec(*context),
    {
        self.attributes.type_ = Some(value);
        self.is_potentially_active(context)
    }

    /// Whether the setup steps run when the element is inserted into a tree: they do when it
    /// is then potentially active.
    pub fn bind_to_tree(&self, context: &EmbedContext) -> (r: bool)
        ensures
            r == self.is_potentially_active_spec(*context),
    {
        self.is_potentially_active(context)
    }

    /// The pipeline of the content navigable, if any.
    pub fn pipeline_id(&self) -> (r: Option<PipelineId>)
        ensures
            r == self.pipeline_id,
    {
        self.pipeline_id
    }

    /// The browsing context of the content navigable, if any.
    pub fn browsing_context_id(&self) -> (r: Option<BrowsingContextId>)
        ensures
            r == self.browsing_context_id,
    {
        self.browsing_context_id
    }

    /// The webview of the content navigable, if any.
    pub fn webview_id(&self) -> (r: Option<WebViewId>)
        ensures
            r == self.webview_id,
    {
        self.webview_id
    }

    /// Destroys the child navigable: the element has no navigable and no pipeline any more.
    pub fn destroy_child_navigable(&mut self)
        ensures
            final(self).has_no_navigable(),
            final(self).attributes == old(self).attributes,
            final(self).has_load_blocker == old(self).has_load_blocker,
    {
        self.pipeline_id = None;
        self.pending_pipeline_id = None;
        self.about_blank_pipeline_id = None;
        self.webview_id = None;
        self.browsing_context_id = None;
    }

    /// Displays no plugin for the element: its child navigable is destroyed, and it
    /// represents nothing.
    pub fn display_no_plugin(&mut self)
        ensures
            final(self).has_no_navigable(),
            final(self).attributes == old(self).attributes,
            final(self).has_load_blocker == old(self).has_load_blocker,
    {
        self.destroy_child_navigable();
    }
}

/// The load that a pipeline start sends: `about:blank`, whose scheme is `about`.
pub open spec fn is_about_blank(url: ParsedUrl) -> bool {
    url.serialization@ == "about:blank"@ && url.scheme@ == "about"@
}

/// A network error in reply to a fetch.
#[derive(Clone, Copy, Debug, PartialEq, Eq, Structural)]
pub struct NetworkError;

/// What starting a new pipeline in the element's content navigable does: nothing when the
/// element has no navigable; only ending the blocking of the document's load when the load is
/// a `javascript:` URL whose evaluation stopped the navigation; and otherwise a new pipeline
/// id from the namespace, recorded as pending, which for the initial `about:blank` document is
/// also the current pipeline at once. The pipeline is announced with the window's pipeline as
/// its parent and with the history handling asked for.
pub open spec fn pipeline_started(
    e0: HTMLEmbedElement,
    n0: Option<PipelineNamespace>,
    e1: HTMLEmbedElement,
    n1: Option<PipelineNamespace>,
    load: LoadData,
    pipeline_type: PipelineType,
    window_pipeline_id: PipelineId,
    history_handling: NavigationHistoryBehavior,
    javascript_url_navigated: bool,
    r: Option<PipelineStart>,
) -> bool {
    if e0.browsing_context_id is None || e0.webview_id is None {
        r is None && e1 == e0 && n1 == n0
    } else if load.url.scheme@ == "javascript"@ && !javascript_url_navigated {
        r is None && e1 == (HTMLEmbedElement { has_load_blocker: false, ..e0 }) && n1 == n0
    } else {
        &&& r is Some
        &&& allocates(n0, n1, r.unwrap().new_pipeline_id)
        &&& r.unwrap().browsing_context_id == e0.browsing_context_id.unwrap()
        &&& r.unwrap().webview_id == e0.webview_id.unwrap()
        &&& r.unwrap().old_pipeline_id == e0.pipeline_id
        &&& r.unwrap().parent_pipeline_id == window_pipeline_id
        &&& r.unwrap().history_handling == history_handling
        &&& r.unwrap().load_data == load
        &&& e1.pending_pipeline_id == Some(r.unwrap().new_pipeline_id)
        &&& e1.has_load_blocker == !load.js_eval_no_content
        &&& e1.attributes == e0.attributes
        &&& e1.webview_id == e0.webview_id
        &&& e1.browsing_context_id == e0.browsing_context_id
        &&& match pipeline_type {
            PipelineType::InitialAboutBlank => {
                &&& r.unwrap().message == PipelineMessage::ScriptNewIFrame
                &&& r.unwrap().attach_layout
                &&& e1.about_blank_pipeline_id == Some(r.unwrap().new_pipeline_id)
                &&& e1.pipeline_id == Some(r.unwrap().new_pipeline_id)
            },
            PipelineType::Navigation => {
                &&& r.unwrap().message == PipelineMessage::ScriptLoadedURLInIFrame
                &&& !r.unwrap().attach_layout
                &&& e1.about_blank_pipeline_id == e0.about_blank_pipeline_id
                &&& e1.pipeline_id == e0.pipeline_id
            },
        }
    }
}

/// What creating the child navigable does: a new browsing context from the namespace, in the
/// webview of the element's window, then its initial `about:blank` pipeline, also from the
/// namespace, which becomes the current and pending pipeline at once, pushed onto the session
/// history with the window's pipeline as its parent.
pub open spec fn child_navigable_created(
    e0: HTMLEmbedElement,
    n0: Option<PipelineNamespace>,
    e1: HTMLEmbedElement,
    n1: Option<PipelineNamespace>,
    window_webview_id: WebViewId,
    window_pipeline_id: PipelineId,
    r: Option<PipelineStart>,
) -> bool {
    &&& n0 is Some
    &&& n1 is Some
    &&& n1.unwrap().spec_id() == n0.unwrap().spec_id()
    &&& n1.unwrap().spec_index() == n0.unwrap().spec_index() + 2
    &&& r is Some
    &&& e1.browsing_context_id == Some(r.unwrap().browsing_context_id)
    &&& r.unwrap().browsing_context_id.namespace_id == n0.unwrap().spec_id()
    &&& r.unwrap().browsing_context_id.index.spec_get() == n0.unwrap().spec_index() + 1
    &&& r.unwrap().new_pipeline_id.namespace_id == n0.unwrap().spec_id()
    &&& r.unwrap().new_pipeline_id.index.spec_get() == n0.unwrap().spec_index() + 2
    &&& r.unwrap().webview_id == window_webview_id
    &&& r.unwrap().old_pipeline_id is None
    &&& r.unwrap().parent_pipeline_id == window_pipeline_id
    &&& r.unwrap().history_handling == NavigationHistoryBehavior::Push
    &&& r.unwrap().message == PipelineMessage::ScriptNewIFrame
    &&& r.unwrap().attach_layout
    &&& is_about_blank(r.unwrap().load_data.url)
    &&& !r.unwrap().load_data.js_eval_no_content
    &&& e1.webview_id == Some(window_webview_id)
    &&& e1.pipeline_id == Some(r.unwrap().new_pipeline_id)
    &&& e1.pending_pipeline_id == Some(r.unwrap().new_pipeline_id)
    &&& e1.about_blank_pipeline_id == Some(r.unwrap().new_pipeline_id)
    &&& e1.has_load_blocker
    &&& e1.attributes == e0.attributes
}

/// Starting a pipeline needs one more index from the namespace, unless it does nothing.
pub open spec fn pipeline_start_can_allocate(
    e0: HTMLEmbedElement,
    n0: Option<PipelineNamespace>,
    load: LoadData,
    javascript_url_navigated: bool,
) -> bool {
    (e0.browsing_context_id is Some && e0.webview_id is Some && !(load.url.scheme@ == "javascript"@
        && !javascript_url_navigated)) ==> can_allocate(n0)
}

fn is_javascript_scheme(scheme: &String) -> (r: bool)
    ensures
        r == (scheme@ == "javascript"@),
{
    let javascript = <String as StringExecFns>::from_str("javascript");
    *scheme == javascript
}

/// The URL `about:blank`.
pub fn about_blank_url() -> (r: ParsedUrl)
    ensures
        is_about_blank(r),
{
    ParsedUrl {
        serialization: <String as StringExecFns>::from_str("about:blank"),
        scheme: <String as StringExecFns>::from_str("about"),
    }
}

fn same_pipeline(a: Option<PipelineId>, b: PipelineId) -> (r: bool)
    ensures
        r == (a == Some(b)),
{
    match a {
        Some(p) => {
            proof {
                NamespaceIndex::<PipelineIndex>::lemma_eq_fields(p, b);
            }
            p == b
        },
        None => false,
    }
}

impl HTMLEmbedElement {
    /// Starts a new pipeline in the content navigable of the element: see [`pipeline_started`].
    pub fn start_new_pipeline(
        &mut self,
        namespace: &mut Option<PipelineNamespace>,
        load_data: LoadData,
        pipeline_type: PipelineType,
        window_pipeline_id: PipelineId,
        history_handling: NavigationHistoryBehavior,
        javascript_url_navigated: bool,
    ) -> (r: Option<PipelineStart>)
        requires
            pipeline_start_can_allocate(*old(self), *old(namespace), load_data, javascript_url_navigated),
        ensures
            pipeline_started(
                *old(self),
                *old(namespace),
                *final(self),
                *final(namespace),
                load_data,
                pipeline_type,
                window_pipeline_id,
                history_handling,
                javascript_url_navigated,
                r,
            ),
    {
        let browsing_context_id = match self.browsing_context_id {
            None => {
                return None;
            },
            Some(id) => id,
        };
        let webview_id = match self.webview_id {
            None => {
                return None;
            },
            Some(id) => id,
        };
        // Any outstanding load is finished from the point of view of the blocked document;
        // the new navigation will continue blocking it.
        self.has_load_blocker = false;
        if is_javascript_scheme(&load_data.url.scheme) && !javascript_url_navigated {
            return None;
        }
        if !load_data.js_eval_no_content {
            self.has_load_blocker = true;
        }
        let old_pipeline_id = self.pipeline_id;
        let new_pipeline_id = PipelineId::new(namespace);
        self.pending_pipeline_id = Some(new_pipeline_id);
        match pipeline_type {
            PipelineType::InitialAboutBlank => {
                self.about_blank_pipeline_id = Some(new_pipeline_id);
                self.pipeline_id = Some(new_pipeline_id);
                Some(
                    PipelineStart {
                        message: PipelineMessage::ScriptNewIFrame,
                        browsing_context_id,
                        webview_id,
                        parent_pipeline_id: window_pipeline_id,
                        new_pipeline_id,
                        old_pipeline_id,
                        history_handling,
                        attach_layout: true,
                        load_data,
                    },
                )
            },
            PipelineType::Navigation => Some(
                PipelineStart {
                    message: PipelineMessage::ScriptLoadedURLInIFrame,
                    browsing_context_id,
                    webview_id,
                    parent_pipeline_id: window_pipeline_id,
                    new_pipeline_id,
                    old_pipeline_id,
                    history_handling,
                    attach_layout: false,
                    load_data,
                },
            ),
        }
    }

    /// Creates the child navigable of the element in the webview of its window: a new
    /// browsing context from the namespace, then its initial `about:blank` pipeline.
    pub fn create_child_navigable(
        &mut self,
        namespace: &mut Option<PipelineNamespace>,
        window_webview_id: WebViewId,
        window_pipeline_id: PipelineId,
    ) -> (r: Option<PipelineStart>)
        requires
            can_allocate_many(*old(namespace), 2),
        ensures
            child_navigable_created(
                *old(self),
                *old(namespace),
                *final(self),
                *final(namespace),
                window_webview_id,
                window_pipeline_id,
                r,
            ),
    {
        let browsing_context_id = BrowsingContextId::new(namespace);
        self.pipeline_id = None;
        self.pending_pipeline_id = None;
        self.webview_id = Some(window_webview_id);
        self.browsing_context_id = Some(browsing_context_id);
        let load_data = LoadData { url: about_blank_url(), js_eval_no_content: false };
        proof {
            reveal_strlit("about");
            reveal_strlit("javascript");
        }
        self.start_new_pipeline(
            namespace,
            load_data,
            PipelineType::InitialAboutBlank,
            window_pipeline_id,
            NavigationHistoryBehavior::Push,
            true,
        )
    }
}

impl HTMLEmbedElement {
    /// Takes a new pipeline of the content navigable into account. A navigation to a
    /// pipeline other than the pending one is ignored (returns false); otherwise the pipeline
    /// becomes the current one, and a traversal also ends the blocking of the document's load.
    pub fn update_pipeline_id(&mut self, new_pipeline_id: PipelineId, reason: UpdatePipelineIdReason) -> (r: bool)
        ensures
            r == !(old(self).pending_pipeline_id != Some(new_pipeline_id)
                && reason == UpdatePipelineIdReason::Navigation),
            !r ==> *final(self) == *old(self),
            r ==> *final(self) == (HTMLEmbedElement {
                pipeline_id: Some(new_pipeline_id),
                has_load_blocker: if reason == UpdatePipelineIdReason::Traversal {
                    false
                } else {
                    old(self).has_load_blocker
                },
                ..*old(self)
            }),
    {
        if !same_pipeline(self.pending_pipeline_id, new_pipeline_id)
            && reason == UpdatePipelineIdReason::Navigation {
            return false;
        }
        self.pipeline_id = Some(new_pipeline_id);
        // Only a traversal ends the blocking of the load here; for a navigation that happens
        // when the load event steps of the embedded document run.
        if reason == UpdatePipelineIdReason::Traversal {
            self.has_load_blocker = false;
        }
        true
    }

    /// Navigates (or reloads) the content navigable: starts a navigation pipeline.
    pub fn navigate_or_reload_content_navigable(
        &mut self,
        namespace: &mut Option<PipelineNamespace>,
        load_data: LoadData,
        window_pipeline_id: PipelineId,
        history_handling: NavigationHistoryBehavior,
        javascript_url_navigated: bool,
    ) -> (r: Option<PipelineStart>)
        requires
            pipeline_start_can_allocate(*old(self), *old(namespace), load_data, javascript_url_navigated),
        ensures
            pipeline_started(
                *old(self),
                *old(namespace),
                *final(self),
                *final(namespace),
                load_data,
                PipelineType::Navigation,
                window_pipeline_id,
                history_handling,
                javascript_url_navigated,
                r,
            ),
    {
        self.start_new_pipeline(
            namespace,
            load_data,
            PipelineType::Navigation,
            window_pipeline_id,
            history_handling,
            javascript_url_navigated,
        )
    }

    /// The type of the content of a successful response: the `type` attribute, when present.
    /// A network error has no type.
    pub fn determine_content_type(&self, response_ok: bool) -> (r: Option<String>)
        ensures
            r is Some <==> response_ok && self.attributes.type_ is Some,
            r matches Some(t) ==> t@ == self.attributes.type_.unwrap()@,
    {
        if response_ok {
            match &self.attributes.type_ {
                Some(t) => {
                    return Some(t.clone());
                },
                None => {},
            }
        }
        None
    }

    /// Handles the response to the fetch of the setup steps. A network error fires `load` at
    /// the element and changes nothing else. When the response has no type that a plugin
    /// handles, no plugin is displayed. Otherwise the content navigable, created first if
    /// the element has no webview, navigates to the final URL of the response, replacing the
    /// current history entry.
    pub fn process_response(
        &mut self,
        namespace: &mut Option<PipelineNamespace>,
        response: Result<ParsedUrl, NetworkError>,
        window_webview_id: WebViewId,
        window_pipeline_id: PipelineId,
        javascript_url_navigated: bool,
    ) -> (r: ResponseAction)
        requires
            (response is Ok && old(self).attributes.type_ is Some) ==> if old(self).webview_id is None {
                &&& can_allocate_many(*old(namespace), 2)
                &&& !(response->Ok_0.scheme@ == "javascript"@ && !javascript_url_navigated)
                    ==> can_allocate_many(*old(namespace), 3)
            } else {
                pipeline_start_can_allocate(
                    *old(self),
                    *old(namespace),
                    LoadData { url: response->Ok_0, js_eval_no_content: false },
                    javascript_url_navigated,
                )
            },
        ensures
            response is Err ==> r is FireLoadEvent && *final(self) == *old(self) && *final(namespace) == *old(namespace),
            (response is Ok && old(self).attributes.type_ is None) ==> {
                &&& r is DisplayNoPlugin
                &&& final(self).has_no_navigable()
                &&& final(self).attributes == old(self).attributes
                &&& final(self).has_load_blocker == old(self).has_load_blocker
                &&& *final(namespace) == *old(namespace)
            },
            (response is Ok && old(self).attributes.type_ is Some) ==> {
                &&& r is Navigate
                &&& exists|e_mid: HTMLEmbedElement, n_mid: Option<PipelineNamespace>| {
                    &&& (old(self).webview_id is None ==> child_navigable_created(
                        *old(self),
                        *old(namespace),
                        e_mid,
                        n_mid,
                        window_webview_id,
                        window_pipeline_id,
                        r->created,
                    ))
                    &&& (old(self).webview_id is Some ==> r->created is None && e_mid == *old(self)
                        && n_mid == *old(namespace))
                    &&& #[trigger] pipeline_started(
                        e_mid,
                        n_mid,
                        *final(self),
                        *final(namespace),
                        LoadData { url: response->Ok_0, js_eval_no_content: false },
                        PipelineType::Navigation,
                        window_pipeline_id,
                        NavigationHistoryBehavior::Replace,
                        javascript_url_navigated,
                        r->navigation,
                    )
                }
            },
    {
        let final_url = match response {
            Err(_) => {
                return ResponseAction::FireLoadEvent;
            },
            Ok(url) => url,
        };
        match self.determine_content_type(true) {
            Some(_) => {
                let created = if self.webview_id.is_none() {
                    self.create_child_navigable(namespace, window_webview_id, window_pipeline_id)
                } else {
                    None
                };
                let ghost e_mid = *self;
                let ghost n_mid = *namespace;
                let load_data = LoadData { url: final_url, js_eval_no_content: false };
                let ghost load = load_data;
                let navigation = self.navigate_or_reload_content_navigable(
                    namespace,
                    load_data,
                    window_pipeline_id,
                    NavigationHistoryBehavior::Replace,
                    javascript_url_navigated,
                );
                assert(pipeline_started(
                    e_mid,
                    n_mid,
                    *self,
                    *namespace,
                    load,
                    PipelineType::Navigation,
                    window_pipeline_id,
                    NavigationHistoryBehavior::Replace,
                    javascript_url_navigated,
                    navigation,
                ));
                ResponseAction::Navigate { created, navigation }
            },
            None => {
                self.display_no_plugin();
                ResponseAction::DisplayNoPlugin
            },
        }
    }

    /// The setup steps as first drafted: when the element has a `src` attribute, fetch the
    /// URL that it parses to (nothing when it does not parse); otherwise do nothing.
    pub fn element_setup(&self) -> (r: SetupStep)
        ensures
            match self.attributes.src {
                None => r is Nothing,
                Some(v) => match spec_parse_url(v@) {
                    None => r is Nothing,
                    Some(parsed) => r matches SetupStep::Fetch(request) && request.url.view_pair() == parsed
                        && request.credentials_mode == CredentialsMode::Include
                        && request.mode == RequestMode::Navigate && request.use_url_credentials,
                },
            },
    {
        match &self.attributes.src {
            Some(v) => setup_step_for_url(parse_url(v.as_str())),
            None => SetupStep::Nothing,
        }
    }

    /// The setup steps: when the element has a `src` attribute, fetch the URL that it parses
    /// to relative to the document's base URL (nothing when it does not parse); otherwise
    /// display no plugin.
    pub fn setup(&mut self, base_url: &str) -> (r: SetupStep)
        ensures
            match old(self).attributes.src {
                None => r is DisplayNoPlugin && final(self).has_no_navigable()
                    && final(self).attributes == old(self).attributes
                    && final(self).has_load_blocker == old(self).has_load_blocker,
                Some(v) => *final(self) == *old(self) && match spec_parse_url_with_base(base_url@, v@) {
                    None => r is Nothing,
                    Some(parsed) => r matches SetupStep::Fetch(request) && request.url.view_pair() == parsed
                        && request.credentials_mode == CredentialsMode::Include
                        && request.mode == RequestMode::Navigate && request.use_url_credentials,
                },
            },
    {
        match &self.attributes.src {
            Some(v) => setup_step_for_url(parse_url_with_base(base_url, v.as_str())),
            None => {
                self.display_no_plugin();
                SetupStep::DisplayNoPlugin
            },
        }
    }
}

/// Every condition on the context is needed for an element to be potentially active: it is
/// in a document whose node document is fully active, it is not inside a media element, and it
/// is being rendered. So is a `src` or `type` attribute, and a `src` that is not empty. An
/// element with a non-empty `src` in such a context is potentially active.
pub proof fn lemma_potentially_active_needs_every_condition(e: HTMLEmbedElement, context: EmbedContext)
    ensures
        e.is_potentially_active_spec(context) ==> {
            &&& context.in_a_document
            &&& context.node_document_active
            &&& context.not_media_element_descendant
            &&& context.is_rendered
            &&& e.attributes.src is Some || e.attributes.type_ is Some
            &&& (e.attributes.src matches Some(src) ==> src@.len() > 0)
        },
        (context.in_a_document && context.node_document_active && context.not_media_element_descendant
            && context.is_rendered && (e.attributes.src matches Some(src) && src@.len() > 0))
            ==> e.is_potentially_active_spec(context),
{
}

/// An element that is potentially active does not represent nothing.
pub proof fn lemma_potentially_active_represents_something(e: HTMLEmbedElement, context: EmbedContext)
    ensures
        e.is_potentially_active_spec(context) ==> e.potentially_active_spec(),
        e.potentially_active_spec() ==> !e.represents_nothing_spec(),
{
}

} // verus!
