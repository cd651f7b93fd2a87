use servo::id::{
    test_browsing_context_id, test_namespace, test_pipeline_id, test_webview_id, BlobId,
    BrowsingContextGroupId, BrowsingContextId, BrowsingContextIndex, ExternalScrollId, Index,
    MessagePortId, PipelineId, PipelineIndex, PipelineNamespace, PipelineNamespaceId,
    ScrollTreeNodeId, WebRenderPipelineId, WebViewId, ZeroIndex,
};
use servo::text::decimal_string;

#[test]
fn index_new_rejects_zero() {
    let r: Result<Index<PipelineIndex>, ZeroIndex> = Index::new(0);
    assert!(r.is_err());
}

#[test]
fn index_new_keeps_value() {
    let r: Index<PipelineIndex> = Index::new(42).unwrap();
    assert_eq!(r.get(), 42);
    let max: Index<BrowsingContextIndex> = Index::new(u32::MAX).unwrap();
    assert_eq!(max.get(), u32::MAX);
}

#[test]
fn ids_of_a_namespace_count_up_from_one() {
    let mut slot = None;
    PipelineNamespace::install(&mut slot, PipelineNamespaceId(7));
    let first = PipelineId::new(&mut slot);
    let second = PipelineId::new(&mut slot);
    let third = BrowsingContextId::new(&mut slot);
    assert_eq!(first.namespace_id, PipelineNamespaceId(7));
    assert_eq!(first.index.get(), 1);
    assert_eq!(second.index.get(), 2);
    assert_eq!(third.namespace_id, PipelineNamespaceId(7));
    assert_eq!(third.index.get(), 3);
    assert!(first != second);
}

#[test]
fn ids_of_different_namespaces_differ() {
    let mut a = None;
    let mut b = None;
    PipelineNamespace::install(&mut a, PipelineNamespaceId(1));
    PipelineNamespace::auto_install(&mut b, PipelineNamespaceId(2));
    let x = MessagePortId::new(&mut a);
    let y = MessagePortId::new(&mut b);
    assert_eq!(x.index.get(), y.index.get());
    assert!(x != y);
}

#[test]
fn fresh_namespace_has_a_next_index() {
    let mut slot = None;
    PipelineNamespace::install(&mut slot, PipelineNamespaceId(3));
    assert!(slot.unwrap().has_next_index());
}

#[test]
fn every_kind_of_id_comes_from_the_namespace() {
    let mut slot = None;
    PipelineNamespace::install(&mut slot, PipelineNamespaceId(9));
    let blob = BlobId::new(&mut slot);
    let webview = WebViewId::new(&mut slot);
    assert_eq!(blob.index.get(), 1);
    assert_eq!(webview.0.index.get(), 2);
    assert_eq!(webview.0.namespace_id, PipelineNamespaceId(9));
}

#[test]
fn debug_and_display_texts() {
    let p = test_pipeline_id();
    assert_eq!(p.debug_string(), "(1234,5678)");
    assert_eq!(p.to_string(), "Pipeline(1234,5678)");
    let w = test_webview_id();
    assert_eq!(w.debug_string(), "TopLevel(1234,8765)");
    assert_eq!(w.to_string(), "TopLevelBrowsingContext(1234,8765)");
    assert_eq!(test_browsing_context_id().to_string(), "BrowsingContext(1234,8765)");
}

#[test]
fn browsing_context_group_display_uses_the_debug_form() {
    let g = BrowsingContextGroupId(5);
    assert_eq!(g.to_string(), format!("BrowsingContextGroup{:?}", g));
    assert_eq!(g.to_string(), "BrowsingContextGroupBrowsingContextGroupId(5)");
    assert_eq!(BrowsingContextGroupId::default(), BrowsingContextGroupId(0));
}

#[test]
fn test_ids_have_their_values() {
    assert_eq!(test_namespace(), PipelineNamespaceId(1234));
    assert_eq!(test_pipeline_id().index.get(), 5678);
    assert_eq!(test_browsing_context_id().index.get(), 8765);
    assert!(test_webview_id() == test_browsing_context_id());
    assert!(test_browsing_context_id() == test_webview_id());
}

#[test]
fn webrender_pipeline_id_round_trip() {
    let p = test_pipeline_id();
    let w = WebRenderPipelineId::from(p);
    assert_eq!(WebRenderPipelineId::from(&p), w);
    assert_eq!(w, WebRenderPipelineId(1234, 5678));
    assert!(PipelineId::from_webrender(w) == p);
    let back = WebRenderPipelineId::from(PipelineId::from_webrender(WebRenderPipelineId(3, 4)));
    assert_eq!(back, WebRenderPipelineId(3, 4));
}

#[test]
fn root_scroll_id_is_zero_in_the_pipeline() {
    let p = test_pipeline_id();
    assert_eq!(p.root_scroll_id(), ExternalScrollId(0, WebRenderPipelineId(1234, 5678)));
}

#[test]
fn webview_id_install_then_installed() {
    let mut slot = None;
    assert!(WebViewId::installed(&slot).is_none());
    WebViewId::install(&mut slot, test_webview_id());
    assert!(WebViewId::installed(&slot) == Some(test_webview_id()));
    let id: BrowsingContextId = BrowsingContextId::from(test_webview_id());
    assert!(id == test_browsing_context_id());
}

#[test]
fn scroll_tree_node_id_default() {
    assert_eq!(ScrollTreeNodeId::default(), ScrollTreeNodeId { index: 0 });
}

#[test]
fn decimal_rendering() {
    assert_eq!(decimal_string(0), "0");
    assert_eq!(decimal_string(10), "10");
    assert_eq!(decimal_string(u32::MAX), "4294967295");
}

#[test]
fn pipeline_id_is_eight_bytes() {
    assert_eq!(std::mem::size_of::<PipelineId>(), 8);
    assert_eq!(std::mem::size_of::<WebViewId>(), 8);
}

#[test]
fn namespace_indices_follow_each_other_across_types() {
    let mut slot = None;
    PipelineNamespace::install(&mut slot, PipelineNamespaceId(7));
    let mut namespace = slot.unwrap();
    let first: Index<PipelineIndex> = namespace.next_namespace_index::<PipelineIndex>().index;
    let second = namespace.next_namespace_index::<BrowsingContextIndex>();
    assert_eq!(first.get(), 1);
    assert_eq!(second.index.get(), 2);
    assert_eq!(second.namespace_id, PipelineNamespaceId(7));
}
