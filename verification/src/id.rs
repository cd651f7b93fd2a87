//! Namespaces and ids shared by the components of the engine.
//!
//! Each thread that creates ids owns a [`PipelineNamespace`]; the slot that holds it
//! (a per-thread cell in the engine) is handed to the functions here explicitly.

use std::marker::PhantomData;
use vstd::prelude::*;
use crate::text::{decimal, push_char, push_decimal};
use vstd::string::StringExecFns;

verus! {

/// A type that implements this trait is expected to be used as part of
/// the [NamespaceIndex] type.
pub trait Indexable {
    /// The string prefix to display when printing an instance of this type.
    const DISPLAY_PREFIX: &'static str;

    /// The text of the display prefix.
    spec fn display_prefix_text() -> Seq<char>;

    /// The display prefix, as a string.
    fn display_prefix() -> (r: &'static str)
        ensures
            r@ == Self::display_prefix_text(),
    ;
}

/// A non-zero index, associated with a particular type.
#[derive(Debug, Hash, PartialOrd, Ord)]
pub struct Index<T> {
    value: u32,
    marker: PhantomData<T>,
}

/// An attempt to create a new [Index] value failed because the index value was zero.
#[derive(Debug, Clone, Copy, PartialEq, Eq, Structural)]
pub struct ZeroIndex;

impl<T> Clone for Index<T> {
    fn clone(&self) -> (r: Self)
        ensures
            r == *self,
    {
        *self
    }
}

impl<T> Copy for Index<T> {
}

impl<T> PartialEq for Index<T> {
    fn eq(&self, other: &Self) -> (r: bool) {
        self.value == other.value
    }
}

impl<T> Eq for Index<T> {
}

impl<T> vstd::std_specs::cmp::PartialEqSpecImpl for Index<T> {
    open spec fn obeys_eq_spec() -> bool {
        true
    }

    open spec fn eq_spec(&self, other: &Self) -> bool {
        self.spec_get() == other.spec_get()
    }
}

impl<T> Index<T> {
    #[verifier::type_invariant]
    spec fn nonzero(self) -> bool {
        self.value != 0
    }

    /// The value of the index.
    pub closed spec fn spec_get(self) -> u32 {
        self.value
    }

    /// Two indices with the same value are the same index.
    pub proof fn lemma_get_injective(a: Self, b: Self)
        requires
            a.spec_get() == b.spec_get(),
        ensures
            a == b,
    {
        assert(a.marker == b.marker);
    }

    /// Creates a new instance of [Index] with the given value.
    /// Returns an error if the value is zero.
    pub fn new(value: u32) -> (r: Result<Index<T>, ZeroIndex>)
        ensures
            r is Ok <==> value != 0,
            r matches Ok(i) ==> i.spec_get() == value,
            r matches Err(e) ==> e == ZeroIndex,
    {
        if value == 0 {
            Err(ZeroIndex)
        } else {
            Ok(Index { value, marker: PhantomData })
        }
    }

    /// The value of the index.
    pub fn get(&self) -> (r: u32)
        ensures
            r == self.spec_get(),
            r != 0,
    {
        proof {
            use_type_invariant(self);
        }
        self.value
    }
}

/// The identifier of a pipeline namespace.
#[derive(Clone, Copy, Debug, PartialEq, Eq, Structural, Hash, PartialOrd, Ord)]
pub struct PipelineNamespaceId(pub u32);

/// The text that the debug form of a namespaced index shows: `(namespace,index)`.
pub open spec fn namespace_index_text(namespace: u32, index: u32) -> Seq<char> {
    seq!['('] + decimal(namespace as nat) + seq![','] + decimal(index as nat) + seq![')']
}

/// A pipeline-namespaced index associated with a particular type.
#[derive(Hash, PartialOrd, Ord)]
pub struct NamespaceIndex<T> {
    pub namespace_id: PipelineNamespaceId,
    pub index: Index<T>,
}

impl<T> Clone for NamespaceIndex<T> {
    fn clone(&self) -> (r: Self)
        ensures
            r == *self,
    {
        *self
    }
}

impl<T> Copy for NamespaceIndex<T> {
}

impl<T> PartialEq for NamespaceIndex<T> {
    fn eq(&self, other: &Self) -> (r: bool) {
        self.namespace_id.0 == other.namespace_id.0 && self.index.get() == other.index.get()
    }
}

impl<T> Eq for NamespaceIndex<T> {
}

impl<T> vstd::std_specs::cmp::PartialEqSpecImpl for NamespaceIndex<T> {
    open spec fn obeys_eq_spec() -> bool {
        true
    }

    open spec fn eq_spec(&self, other: &Self) -> bool {
        self.namespace_id == other.namespace_id && self.index.spec_get()
            == other.index.spec_get()
    }
}

impl<T> NamespaceIndex<T> {
    /// The debug text of this id.
    pub open spec fn debug_text(self) -> Seq<char> {
        namespace_index_text(self.namespace_id.0, self.index.spec_get())
    }

    /// Two ids are the same id exactly when their namespaces and index values agree.
    pub proof fn lemma_eq_fields(a: Self, b: Self)
        ensures
            (a.namespace_id == b.namespace_id && a.index.spec_get() == b.index.spec_get())
                <==> a == b,
    {
        if a.namespace_id == b.namespace_id && a.index.spec_get() == b.index.spec_get() {
            Index::<T>::lemma_get_injective(a.index, b.index);
        }
    }

    /// Appends the debug text of this id to `s`.
    pub fn push_debug(&self, s: &mut String)
        ensures
            final(s)@ == old(s)@ + self.debug_text(),
    {
        push_char(s, '(');
        push_decimal(s, self.namespace_id.0);
        push_char(s, ',');
        push_decimal(s, self.index.get());
        push_char(s, ')');
        assert(final(s)@ =~= old(s)@ + self.debug_text());
    }

    /// The debug text of this id: `(namespace,index)`.
    pub fn debug_string(&self) -> (r: String)
        ensures
            r@ == self.debug_text(),
    {
        let mut s = String::new();
        self.push_debug(&mut s);
        assert(s@ =~= self.debug_text());
        s
    }
}

impl<T: Indexable> NamespaceIndex<T> {
    /// The displayed text of this id: the type's prefix, then `(namespace,index)`.
    pub open spec fn display_text(self) -> Seq<char> {
        T::display_prefix_text() + self.debug_text()
    }

    /// The displayed text of this id.
    pub fn to_string(&self) -> (r: String)
        ensures
            r@ == self.display_text(),
    {
        let mut s = String::new();
        s.append(T::display_prefix());
        self.push_debug(&mut s);
        assert(s@ =~= self.display_text());
        s
    }
}

/// A per-thread generator of pipeline-namespaced ids.
///
/// Each pipeline ID needs to be unique. To achieve this, each pipeline index belongs to a
/// particular namespace: one for the constellation thread, and one for every script thread.
/// The constellation is the only code that creates new namespaces, so namespaces are unique,
/// and within one namespace the indices handed out are 1, 2, 3 and so on.
#[derive(Clone, Copy)]
pub struct PipelineNamespace {
    id: PipelineNamespaceId,
    index: u32,
}

/// The slot holds a namespace that can hand out one more index.
pub open spec fn can_allocate(slot: Option<PipelineNamespace>) -> bool {
    slot matches Some(ns) && ns.spec_index() < u32::MAX
}

/// The slot holds a namespace that can hand out `n` more indices.
pub open spec fn can_allocate_many(slot: Option<PipelineNamespace>, n: nat) -> bool {
    slot matches Some(ns) && ns.spec_index() + n <= u32::MAX
}

/// The namespace `after` is `before` with one more index handed out, and `id` is that index
/// in that namespace.
pub open spec fn namespace_allocates<T>(before: PipelineNamespace, after: PipelineNamespace, id: NamespaceIndex<T>) -> bool {
    &&& after.spec_id() == before.spec_id()
    &&& after.spec_index() == before.spec_index() + 1
    &&& id.namespace_id == before.spec_id()
    &&& id.index.spec_get() == after.spec_index()
}

/// `after` is the namespace of `before` with one more index handed out, and `id` is that
/// index in that namespace.
pub open spec fn allocates<T>(
    before: Option<PipelineNamespace>,
    after: Option<PipelineNamespace>,
    id: NamespaceIndex<T>,
) -> bool {
    &&& before matches Some(b)
    &&& after matches Some(a)
    &&& a.spec_id() == b.spec_id()
    &&& a.spec_index() == b.spec_index() + 1
    &&& id.namespace_id == b.spec_id()
    &&& id.index.spec_get() == a.spec_index()
}

impl PipelineNamespace {
    /// The identifier of this namespace.
    pub closed spec fn spec_id(self) -> PipelineNamespaceId {
        self.id
    }

    /// The last index handed out in this namespace (0 when none was).
    pub closed spec fn spec_index(self) -> u32 {
        self.index
    }

    /// Install a namespace for a given Id in the slot.
    /// The slot must hold no namespace yet.
    pub fn install(slot: &mut Option<PipelineNamespace>, namespace_id: PipelineNamespaceId)
        requires
            *old(slot) is None,
        ensures
            *final(slot) matches Some(ns) && ns.spec_id() == namespace_id && ns.spec_index() == 0,
    {
        *slot = Some(PipelineNamespace { id: namespace_id, index: 0 });
    }

    /// Install the namespace whose id the constellation handed out in reply to a request.
    /// The slot must hold no namespace yet.
    pub fn auto_install(slot: &mut Option<PipelineNamespace>, granted_id: PipelineNamespaceId)
        requires
            *old(slot) is None,
        ensures
            *final(slot) matches Some(ns) && ns.spec_id() == granted_id && ns.spec_index() == 0,
    {
        PipelineNamespace::install(slot, granted_id);
    }

    /// Whether the namespace can hand out one more index without wrapping around.
    pub fn has_next_index(&self) -> (r: bool)
        ensures
            r == (self.spec_index() < u32::MAX),
    {
        self.index < u32::MAX
    }

    fn next_index(&mut self) -> (r: u32)
        requires
            old(self).spec_index() < u32::MAX,
        ensures
            r == old(self).spec_index() + 1,
            final(self).spec_index() == r,
            final(self).spec_id() == old(self).spec_id(),
    {
        self.index = self.index + 1;
        self.index
    }

    /// Hands out the next index of this namespace, for an id of any type.
    pub fn next_namespace_index<T>(&mut self) -> (r: NamespaceIndex<T>)
        requires
            old(self).spec_index() < u32::MAX,
        ensures
            namespace_allocates(*old(self), *final(self), r),
    {
        let value = self.next_index();
        NamespaceIndex { namespace_id: self.id, index: Index { value, marker: PhantomData } }
    }

    /// Hands out the next id of the namespace held in `slot`.
    pub fn next_id<T>(slot: &mut Option<PipelineNamespace>) -> (r: NamespaceIndex<T>)
        requires
            can_allocate(*old(slot)),
        ensures
            allocates(*old(slot), *final(slot), r),
    {
        if let Some(mut namespace) = *slot {
            let next_id = namespace.next_namespace_index();
            *slot = Some(namespace);
            next_id
        } else {
            vstd::pervasive::unreached()
        }
    }
}

/// The marker type of [`PipelineId`] indices.
#[derive(Clone, Copy, Debug, PartialEq, Eq, Structural, Hash, PartialOrd, Ord)]
pub struct PipelineIndex;

impl Indexable for PipelineIndex {
    const DISPLAY_PREFIX: &'static str = "Pipeline";

    open spec fn display_prefix_text() -> Seq<char> {
        "Pipeline"@
    }

    fn display_prefix() -> (r: &'static str) {
        "Pipeline"
    }
}

pub type PipelineId = NamespaceIndex<PipelineIndex>;

impl NamespaceIndex<PipelineIndex> {
    /// A new id from the namespace held in `slot`, which must hold one.
    pub fn new(slot: &mut Option<PipelineNamespace>) -> (r: PipelineId)
        requires
            can_allocate(*old(slot)),
        ensures
            allocates(*old(slot), *final(slot), r),
    {
        PipelineNamespace::next_id(slot)
    }
}

/// The marker type of [`BrowsingContextId`] indices.
#[derive(Clone, Copy, Debug, PartialEq, Eq, Structural, Hash, PartialOrd, Ord)]
pub struct BrowsingContextIndex;

impl Indexable for BrowsingContextIndex {
    const DISPLAY_PREFIX: &'static str = "BrowsingContext";

    open spec fn display_prefix_text() -> Seq<char> {
        "BrowsingContext"@
    }

    fn display_prefix() -> (r: &'static str) {
        "BrowsingContext"
    }
}

pub type BrowsingContextId = NamespaceIndex<BrowsingContextIndex>;

impl NamespaceIndex<BrowsingContextIndex> {
    /// A new id from the namespace held in `slot`, which must hold one.
    pub fn new(slot: &mut Option<PipelineNamespace>) -> (r: BrowsingContextId)
        requires
            can_allocate(*old(slot)),
        ensures
            allocates(*old(slot), *final(slot), r),
    {
        PipelineNamespace::next_id(slot)
    }
}

/// The marker type of [`MessagePortId`] indices.
#[derive(Clone, Copy, Debug, PartialEq, Eq, Structural, Hash, PartialOrd, Ord)]
pub struct MessagePortIndex;

impl Indexable for MessagePortIndex {
    const DISPLAY_PREFIX: &'static str = "MessagePort";

    open spec fn display_prefix_text() -> Seq<char> {
        "MessagePort"@
    }

    fn display_prefix() -> (r: &'static str) {
        "MessagePort"
    }
}

pub type MessagePortId = NamespaceIndex<MessagePortIndex>;

impl NamespaceIndex<MessagePortIndex> {
    /// A new id from the namespace held in `slot`, which must hold one.
    pub fn new(slot: &mut Option<PipelineNamespace>) -> (r: MessagePortId)
        requires
            can_allocate(*old(slot)),
        ensures
            allocates(*old(slot), *final(slot), r),
    {
        PipelineNamespace::next_id(slot)
    }
}

/// The marker type of [`MessagePortRouterId`] indices.
#[derive(Clone, Copy, Debug, PartialEq, Eq, Structural, Hash, PartialOrd, Ord)]
pub struct MessagePortRouterIndex;

impl Indexable for MessagePortRouterIndex {
    const DISPLAY_PREFIX: &'static str = "MessagePortRouter";

    open spec fn display_prefix_text() -> Seq<char> {
        "MessagePortRouter"@
    }

    fn display_prefix() -> (r: &'static str) {
        "MessagePortRouter"
    }
}

pub type MessagePortRouterId = NamespaceIndex<MessagePortRouterIndex>;

impl NamespaceIndex<MessagePortRouterIndex> {
    /// A new id from the namespace held in `slot`, which must hold one.
    pub fn new(slot: &mut Option<PipelineNamespace>) -> (r: MessagePortRouterId)
        requires
            can_allocate(*old(slot)),
        ensures
            allocates(*old(slot), *final(slot), r),
    {
        PipelineNamespace::next_id(slot)
    }
}

/// The marker type of [`BroadcastChannelRouterId`] indices.
#[derive(Clone, Copy, Debug, PartialEq, Eq, Structural, Hash, PartialOrd, Ord)]
pub struct BroadcastChannelRouterIndex;

impl Indexable for BroadcastChannelRouterIndex {
    const DISPLAY_PREFIX: &'static str = "BroadcastChannelRouter";

    open spec fn display_prefix_text() -> Seq<char> {
        "BroadcastChannelRouter"@
    }

    fn display_prefix() -> (r: &'static str) {
        "BroadcastChannelRouter"
    }
}

pub type BroadcastChannelRouterId = NamespaceIndex<BroadcastChannelRouterIndex>;

impl NamespaceIndex<BroadcastChannelRouterIndex> {
    /// A new id from the namespace held in `slot`, which must hold one.
    pub fn new(slot: &mut Option<PipelineNamespace>) -> (r: BroadcastChannelRouterId)
        requires
            can_allocate(*old(slot)),
        ensures
            allocates(*old(slot), *final(slot), r),
    {
        PipelineNamespace::next_id(slot)
    }
}

/// The marker type of [`ServiceWorkerId`] indices.
#[derive(Clone, Copy, Debug, PartialEq, Eq, Structural, Hash, PartialOrd, Ord)]
pub struct ServiceWorkerIndex;

impl Indexable for ServiceWorkerIndex {
    const DISPLAY_PREFIX: &'static str = "ServiceWorker";

    open spec fn display_prefix_text() -> Seq<char> {
        "ServiceWorker"@
    }

    fn display_prefix() -> (r: &'static str) {
        "ServiceWorker"
    }
}

pub type ServiceWorkerId = NamespaceIndex<ServiceWorkerIndex>;

impl NamespaceIndex<ServiceWorkerIndex> {
    /// A new id from the namespace held in `slot`, which must hold one.
    pub fn new(slot: &mut Option<PipelineNamespace>) -> (r: ServiceWorkerId)
        requires
            can_allocate(*old(slot)),
        ensures
            allocates(*old(slot), *final(slot), r),
    {
        PipelineNamespace::next_id(slot)
    }
}

/// The marker type of [`ServiceWorkerRegistrationId`] indices.
#[derive(Clone, Copy, Debug, PartialEq, Eq, Structural, Hash, PartialOrd, Ord)]
pub struct ServiceWorkerRegistrationIndex;

impl Indexable for ServiceWorkerRegistrationIndex {
    const DISPLAY_PREFIX: &'static str = "ServiceWorkerRegistration";

    open spec fn display_prefix_text() -> Seq<char> {
        "ServiceWorkerRegistration"@
    }

    fn display_prefix() -> (r: &'static str) {
        "ServiceWorkerRegistration"
    }
}

pub type ServiceWorkerRegistrationId = NamespaceIndex<ServiceWorkerRegistrationIndex>;

impl NamespaceIndex<ServiceWorkerRegistrationIndex> {
    /// A new id from the namespace held in `slot`, which must hold one.
    pub fn new(slot: &mut Option<PipelineNamespace>) -> (r: ServiceWorkerRegistrationId)
        requires
            can_allocate(*old(slot)),
        ensures
            allocates(*old(slot), *final(slot), r),
    {
        PipelineNamespace::next_id(slot)
    }
}

/// The marker type of [`BlobId`] indices.
#[derive(Clone, Copy, Debug, PartialEq, Eq, Structural, Hash, PartialOrd, Ord)]
pub struct BlobIndex;

impl Indexable for BlobIndex {
    const DISPLAY_PREFIX: &'static str = "Blob";

    open spec fn display_prefix_text() -> Seq<char> {
        "Blob"@
    }

    fn display_prefix() -> (r: &'static str) {
        "Blob"
    }
}

pub type BlobId = NamespaceIndex<BlobIndex>;

impl NamespaceIndex<BlobIndex> {
    /// A new id from the namespace held in `slot`, which must hold one.
    pub fn new(slot: &mut Option<PipelineNamespace>) -> (r: BlobId)
        requires
            can_allocate(*old(slot)),
        ensures
            allocates(*old(slot), *final(slot), r),
    {
        PipelineNamespace::next_id(slot)
    }
}

/// The marker type of [`DomPointId`] indices.
#[derive(Clone, Copy, Debug, PartialEq, Eq, Structural, Hash, PartialOrd, Ord)]
pub struct DomPointIndex;

impl Indexable for DomPointIndex {
    const DISPLAY_PREFIX: &'static str = "DomPoint";

    open spec fn display_prefix_text() -> Seq<char> {
        "DomPoint"@
    }

    fn display_prefix() -> (r: &'static str) {
        "DomPoint"
    }
}

pub type DomPointId = NamespaceIndex<DomPointIndex>;

impl NamespaceIndex<DomPointIndex> {
    /// A new id from the namespace held in `slot`, which must hold one.
    pub fn new(slot: &mut Option<PipelineNamespace>) -> (r: DomPointId)
        requires
            can_allocate(*old(slot)),
        ensures
            allocates(*old(slot), *final(slot), r),
    {
        PipelineNamespace::next_id(slot)
    }
}

/// The marker type of [`DomExceptionId`] indices.
#[derive(Clone, Copy, Debug, PartialEq, Eq, Structural, Hash, PartialOrd, Ord)]
pub struct DomExceptionIndex;

impl Indexable for DomExceptionIndex {
    const DISPLAY_PREFIX: &'static str = "DomException";

    open spec fn display_prefix_text() -> Seq<char> {
        "DomException"@
    }

    fn display_prefix() -> (r: &'static str) {
        "DomException"
    }
}

pub type DomExceptionId = NamespaceIndex<DomExceptionIndex>;

impl NamespaceIndex<DomExceptionIndex> {
    /// A new id from the namespace held in `slot`, which must hold one.
    pub fn new(slot: &mut Option<PipelineNamespace>) -> (r: DomExceptionId)
        requires
            can_allocate(*old(slot)),
        ensures
            allocates(*old(slot), *final(slot), r),
    {
        PipelineNamespace::next_id(slot)
    }
}

/// The marker type of [`HistoryStateId`] indices.
#[derive(Clone, Copy, Debug, PartialEq, Eq, Structural, Hash, PartialOrd, Ord)]
pub struct HistoryStateIndex;

impl Indexable for HistoryStateIndex {
    const DISPLAY_PREFIX: &'static str = "HistoryState";

    open spec fn display_prefix_text() -> Seq<char> {
        "HistoryState"@
    }

    fn display_prefix() -> (r: &'static str) {
        "HistoryState"
    }
}

pub type HistoryStateId = NamespaceIndex<HistoryStateIndex>;

impl NamespaceIndex<HistoryStateIndex> {
    /// A new id from the namespace held in `slot`, which must hold one.
    pub fn new(slot: &mut Option<PipelineNamespace>) -> (r: HistoryStateId)
        requires
            can_allocate(*old(slot)),
        ensures
            allocates(*old(slot), *final(slot), r),
    {
        PipelineNamespace::next_id(slot)
    }
}

/// The marker type of [`ImageBitmapId`] indices.
#[derive(Clone, Copy, Debug, PartialEq, Eq, Structural, Hash, PartialOrd, Ord)]
pub struct ImageBitmapIndex;

impl Indexable for ImageBitmapIndex {
    const DISPLAY_PREFIX: &'static str = "ImageBitmap";

    open spec fn display_prefix_text() -> Seq<char> {
        "ImageBitmap"@
    }

    fn display_prefix() -> (r: &'static str) {
        "ImageBitmap"
    }
}

pub type ImageBitmapId = NamespaceIndex<ImageBitmapIndex>;

impl NamespaceIndex<ImageBitmapIndex> {
    /// A new id from the namespace held in `slot`, which must hold one.
    pub fn new(slot: &mut Option<PipelineNamespace>) -> (r: ImageBitmapId)
        requires
            can_allocate(*old(slot)),
        ensures
            allocates(*old(slot), *final(slot), r),
    {
        PipelineNamespace::next_id(slot)
    }
}

/// The marker type of [`OffscreenCanvasId`] indices.
#[derive(Clone, Copy, Debug, PartialEq, Eq, Structural, Hash, PartialOrd, Ord)]
pub struct OffscreenCanvasIndex;

impl Indexable for OffscreenCanvasIndex {
    const DISPLAY_PREFIX: &'static str = "OffscreenCanvas";

    open spec fn display_prefix_text() -> Seq<char> {
        "OffscreenCanvas"@
    }

    fn display_prefix() -> (r: &'static str) {
        "OffscreenCanvas"
    }
}

pub type OffscreenCanvasId = NamespaceIndex<OffscreenCanvasIndex>;

impl NamespaceIndex<OffscreenCanvasIndex> {
    /// A new id from the namespace held in `slot`, which must hold one.
    pub fn new(slot: &mut Option<PipelineNamespace>) -> (r: OffscreenCanvasId)
        requires
            can_allocate(*old(slot)),
        ensures
            allocates(*old(slot), *final(slot), r),
    {
        PipelineNamespace::next_id(slot)
    }
}

/// The pipeline identifier of the display-list renderer: a namespace and an index.
#[derive(Clone, Copy, Debug, PartialEq, Eq, Structural, Hash)]
pub struct WebRenderPipelineId(pub u32, pub u32);

/// The renderer's identifier of a scroll frame within a pipeline.
#[derive(Clone, Copy, Debug, PartialEq, Eq, Structural, Hash)]
pub struct ExternalScrollId(pub u64, pub WebRenderPipelineId);

impl NamespaceIndex<PipelineIndex> {
    /// The renderer's form of this pipeline id.
    pub open spec fn webrender_view(self) -> WebRenderPipelineId {
        WebRenderPipelineId(self.namespace_id.0, self.index.spec_get())
    }

    /// The id of the root scroll frame of this pipeline.
    pub fn root_scroll_id(&self) -> (r: ExternalScrollId)
        ensures
            r == ExternalScrollId(0, self.webrender_view()),
    {
        ExternalScrollId(0, WebRenderPipelineId::from(*self))
    }

    /// The pipeline id that the renderer's pipeline id stands for. Its index must not be zero.
    pub fn from_webrender(pipeline: WebRenderPipelineId) -> (r: PipelineId)
        requires
            pipeline.1 != 0,
        ensures
            r.webrender_view() == pipeline,
    {
        let WebRenderPipelineId(namespace_id, index) = pipeline;
        NamespaceIndex {
            namespace_id: PipelineNamespaceId(namespace_id),
            index: Index { value: index, marker: PhantomData },
        }
    }
}

impl From<PipelineId> for WebRenderPipelineId {
    fn from(value: PipelineId) -> (r: WebRenderPipelineId) {
        let PipelineNamespaceId(namespace_id) = value.namespace_id;
        WebRenderPipelineId(namespace_id, value.index.get())
    }
}

impl vstd::std_specs::convert::FromSpecImpl<PipelineId> for WebRenderPipelineId {
    open spec fn obeys_from_spec() -> bool {
        true
    }

    open spec fn from_spec(v: PipelineId) -> WebRenderPipelineId {
        v.webrender_view()
    }
}

impl<'a> From<&'a PipelineId> for WebRenderPipelineId {
    fn from(value: &'a PipelineId) -> (r: WebRenderPipelineId) {
        WebRenderPipelineId::from(*value)
    }
}

impl<'a> vstd::std_specs::convert::FromSpecImpl<&'a PipelineId> for WebRenderPipelineId {
    open spec fn obeys_from_spec() -> bool {
        true
    }

    open spec fn from_spec(v: &'a PipelineId) -> WebRenderPipelineId {
        v.webrender_view()
    }
}

/// The renderer's form of a pipeline id determines the id: converting a pipeline id to the
/// renderer's form and back gives the same id.
pub proof fn lemma_webrender_round_trip(p: PipelineId)
    ensures
        forall|q: PipelineId| q.webrender_view() == p.webrender_view() ==> q == p,
{
    assert forall|q: PipelineId| q.webrender_view() == p.webrender_view() implies q == p by {
        NamespaceIndex::<PipelineIndex>::lemma_eq_fields(q, p);
    }
}

/// A group of browsing contexts that may share script threads.
#[derive(Clone, Copy, Debug, Default, PartialEq, Eq, Structural, Hash)]
pub struct BrowsingContextGroupId(pub u32);

impl BrowsingContextGroupId {
    /// The displayed text: `BrowsingContextGroupBrowsingContextGroupId(n)`.
    pub open spec fn display_text(self) -> Seq<char> {
        "BrowsingContextGroupBrowsingContextGroupId("@ + decimal(self.0 as nat) + seq![')']
    }

    /// The displayed text of this group id.
    pub fn to_string(&self) -> (r: String)
        ensures
            r@ == self.display_text(),
    {
        let mut s = String::new();
        s.append("BrowsingContextGroupBrowsingContextGroupId(");
        push_decimal(&mut s, self.0);
        push_char(&mut s, ')');
        assert(s@ =~= self.display_text());
        s
    }
}

/// The id of a webview: the id of its top-level browsing context.
#[derive(Hash, PartialOrd, Ord)]
pub struct WebViewId(pub BrowsingContextId);

impl Clone for WebViewId {
    fn clone(&self) -> (r: Self)
        ensures
            r == *self,
    {
        *self
    }
}

impl Copy for WebViewId {
}

impl PartialEq for WebViewId {
    fn eq(&self, other: &Self) -> (r: bool) {
        self.0 == other.0
    }
}

impl Eq for WebViewId {
}

impl vstd::std_specs::cmp::PartialEqSpecImpl for WebViewId {
    open spec fn obeys_eq_spec() -> bool {
        true
    }

    open spec fn eq_spec(&self, other: &Self) -> bool {
        self.0.namespace_id == other.0.namespace_id && self.0.index.spec_get()
            == other.0.index.spec_get()
    }
}

impl WebViewId {
    /// The debug text: `TopLevel(namespace,index)`.
    pub open spec fn debug_text(self) -> Seq<char> {
        "TopLevel"@ + self.0.debug_text()
    }

    /// The displayed text: `TopLevelBrowsingContext(namespace,index)`.
    pub open spec fn display_text(self) -> Seq<char> {
        "TopLevel"@ + self.0.display_text()
    }

    /// The debug text of this webview id.
    pub fn debug_string(&self) -> (r: String)
        ensures
            r@ == self.debug_text(),
    {
        let mut s = String::new();
        s.append("TopLevel");
        self.0.push_debug(&mut s);
        assert(s@ =~= self.debug_text());
        s
    }

    /// The displayed text of this webview id.
    pub fn to_string(&self) -> (r: String)
        ensures
            r@ == self.display_text(),
    {
        let mut s = String::new();
        s.append("TopLevel");
        s.append(BrowsingContextIndex::display_prefix());
        self.0.push_debug(&mut s);
        assert(s@ =~= self.display_text());
        s
    }

    /// A new webview id, from a new browsing context id of the namespace held in `slot`.
    pub fn new(slot: &mut Option<PipelineNamespace>) -> (r: WebViewId)
        requires
            can_allocate(*old(slot)),
        ensures
            allocates(*old(slot), *final(slot), r.0),
    {
        WebViewId(BrowsingContextId::new(slot))
    }

    /// Each script and layout thread should have the top-level browsing context id installed,
    /// since it is used by crash reporting.
    pub fn install(slot: &mut Option<WebViewId>, id: WebViewId)
        ensures
            *final(slot) == Some(id),
    {
        *slot = Some(id);
    }

    /// The webview id installed in the slot, if any.
    pub fn installed(slot: &Option<WebViewId>) -> (r: Option<WebViewId>)
        ensures
            r == *slot,
    {
        *slot
    }
}

impl From<WebViewId> for BrowsingContextId {
    fn from(id: WebViewId) -> (r: BrowsingContextId) {
        id.0
    }
}

impl vstd::std_specs::convert::FromSpecImpl<WebViewId> for BrowsingContextId {
    open spec fn obeys_from_spec() -> bool {
        true
    }

    open spec fn from_spec(v: WebViewId) -> BrowsingContextId {
        v.0
    }
}

impl PartialEq<WebViewId> for BrowsingContextId {
    fn eq(&self, rhs: &WebViewId) -> (r: bool) {
        *self == rhs.0
    }
}

impl vstd::std_specs::cmp::PartialEqSpecImpl<WebViewId> for BrowsingContextId {
    open spec fn obeys_eq_spec() -> bool {
        true
    }

    open spec fn eq_spec(&self, other: &WebViewId) -> bool {
        self.namespace_id == other.0.namespace_id && self.index.spec_get()
            == other.0.index.spec_get()
    }
}

impl PartialEq<BrowsingContextId> for WebViewId {
    fn eq(&self, rhs: &BrowsingContextId) -> (r: bool) {
        self.0 == *rhs
    }
}

impl vstd::std_specs::cmp::PartialEqSpecImpl<BrowsingContextId> for WebViewId {
    open spec fn obeys_eq_spec() -> bool {
        true
    }

    open spec fn eq_spec(&self, other: &BrowsingContextId) -> bool {
        self.0.namespace_id == other.namespace_id && self.0.index.spec_get()
            == other.index.spec_get()
    }
}

/// The namespace of the ids made for unit tests.
pub fn test_namespace() -> (r: PipelineNamespaceId)
    ensures
        r == PipelineNamespaceId(1234),
{
    PipelineNamespaceId(1234)
}

/// The pipeline index of the pipeline id made for unit tests.
pub fn test_pipeline_index() -> (r: Index<PipelineIndex>)
    ensures
        r.spec_get() == 5678,
{
    Index { value: 5678, marker: PhantomData }
}

/// The pipeline id made for unit tests.
pub fn test_pipeline_id() -> (r: PipelineId)
    ensures
        r.namespace_id == PipelineNamespaceId(1234),
        r.index.spec_get() == 5678,
{
    NamespaceIndex { namespace_id: test_namespace(), index: test_pipeline_index() }
}

/// The browsing context index of the browsing context id made for unit tests.
pub fn test_browsing_context_index() -> (r: Index<BrowsingContextIndex>)
    ensures
        r.spec_get() == 8765,
{
    Index { value: 8765, marker: PhantomData }
}

/// The browsing context id made for unit tests.
pub fn test_browsing_context_id() -> (r: BrowsingContextId)
    ensures
        r.namespace_id == PipelineNamespaceId(1234),
        r.index.spec_get() == 8765,
{
    NamespaceIndex { namespace_id: test_namespace(), index: test_browsing_context_index() }
}

/// The webview id made for unit tests.
pub fn test_webview_id() -> (r: WebViewId)
    ensures
        r.0.namespace_id == PipelineNamespaceId(1234),
        r.0.index.spec_get() == 8765,
{
    WebViewId(test_browsing_context_id())
}

/// An id for a node in the scroll tree: the index of the node in the tree's array of nodes.
#[derive(Clone, Copy, Debug, Default, PartialEq, Eq, Structural)]
pub struct ScrollTreeNodeId {
    /// The index of this scroll tree node in the tree's array of nodes.
    pub index: usize,
}

/// Ids handed out by one namespace never repeat: an id handed out later (from a state of the
/// namespace at or after the one that the earlier hand-out left) has a larger index, so the
/// two ids differ.
pub proof fn lemma_later_ids_distinct<T>(
    a0: Option<PipelineNamespace>,
    a1: Option<PipelineNamespace>,
    b0: Option<PipelineNamespace>,
    b1: Option<PipelineNamespace>,
    first: NamespaceIndex<T>,
    second: NamespaceIndex<T>,
)
    requires
        allocates(a0, a1, first),
        allocates(b0, b1, second),
        a1.unwrap().spec_id() == b0.unwrap().spec_id(),
        a1.unwrap().spec_index() <= b0.unwrap().spec_index(),
    ensures
        first.namespace_id == second.namespace_id,
        first.index.spec_get() < second.index.spec_get(),
        first != second,
{
}

/// One namespace hands out successive indices to ids of any types: from a namespace whose
/// last index is k, two ids in a row get indices k + 1 and k + 2 in that namespace.
pub proof fn lemma_successive_indices<T, U>(
    n0: Option<PipelineNamespace>,
    n1: Option<PipelineNamespace>,
    n2: Option<PipelineNamespace>,
    first: NamespaceIndex<T>,
    second: NamespaceIndex<U>,
)
    requires
        allocates(n0, n1, first),
        allocates(n1, n2, second),
    ensures
        first.namespace_id == n0.unwrap().spec_id(),
        second.namespace_id == n0.unwrap().spec_id(),
        first.index.spec_get() == n0.unwrap().spec_index() + 1,
        second.index.spec_get() == n0.unwrap().spec_index() + 2,
        n2.unwrap().spec_id() == n0.unwrap().spec_id(),
        n2.unwrap().spec_index() == n0.unwrap().spec_index() + 2,
{
}

/// Two indices in a row from one namespace, for ids of any types: from a namespace whose last
/// index is k, they are k + 1 and k + 2 in that namespace, and the namespace then stands at
/// k + 2.
pub proof fn lemma_successive_namespace_indices<T, U>(
    n0: PipelineNamespace,
    n1: PipelineNamespace,
    n2: PipelineNamespace,
    first: NamespaceIndex<T>,
    second: NamespaceIndex<U>,
)
    requires
        namespace_allocates(n0, n1, first),
        namespace_allocates(n1, n2, second),
    ensures
        first.namespace_id == n0.spec_id(),
        second.namespace_id == n0.spec_id(),
        first.index.spec_get() == n0.spec_index() + 1,
        second.index.spec_get() == n0.spec_index() + 2,
        n2.spec_id() == n0.spec_id(),
        n2.spec_index() == n0.spec_index() + 2,
{
}

/// Ids from namespaces with different identifiers differ.
pub proof fn lemma_namespaces_separate_ids<T>(
    a0: Option<PipelineNamespace>,
    a1: Option<PipelineNamespace>,
    b0: Option<PipelineNamespace>,
    b1: Option<PipelineNamespace>,
    x: NamespaceIndex<T>,
    y: NamespaceIndex<T>,
)
    requires
        allocates(a0, a1, x),
        allocates(b0, b1, y),
        a0.unwrap().spec_id() != b0.unwrap().spec_id(),
    ensures
        x != y,
{
}

} // verus!
