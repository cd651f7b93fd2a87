use servo::app_unit::Au;
use servo::flow::{content_inline_size, float_or_atomic_available_space, float_or_atomic_box_sides, SequentialOp};
use servo::flow::{
    automatic_inline_size, block_formatting_context_content_block_size,
    block_size_is_zero_or_intrinsic, collapse_margins_with_children,
    compute_inline_content_sizes_for_block_level_boxes, justify_self_alignment,
    lays_out_sequentially, outside_marker_content_rect, resolve_justify_self,
    solve_block_margins_for_in_flow_block_level, solve_inline_margins_avoiding_floats,
    solve_inline_margins_for_in_flow_block_level, solve_margins, AlignFlags, AlignKeyword,
    AlignModifier, AuOrAuto, AutomaticSize, Baselines, BlockContainer, BlockLevelBox,
    BlockLevelBoxSizing, BlockMarginStyle, BoxFragmentInfo, Clear, CollapsedBlockMargins,
    CollapsedMargin, ContainingBlock, ContainingBlockInlineExtent, ContainingBlockStyle,
    ContentSizes, FloatSide, InlineContentSizesResult, JustifyStyle, LogicalRect, LogicalSides,
    LogicalVec2, PaddingBorderMargin, PlacedFragment, PlacementState, StyleSize,
    TextAlignKeyword,
};

fn margins(start: i32, end: i32, collapsed_through: bool) -> CollapsedBlockMargins {
    CollapsedBlockMargins {
        collapsed_through,
        start: CollapsedMargin::new(Au(start)),
        end: CollapsedMargin::new(Au(end)),
    }
}

fn block(size: i32, m: CollapsedBlockMargins, clearance: Option<i32>) -> PlacedFragment {
    PlacedFragment::Box(BoxFragmentInfo {
        is_outside_marker: false,
        is_table_wrapper: false,
        content_block_start: Au(0),
        content_block_size: Au(size),
        border_block_size: Au(size),
        clearance: clearance.map(Au),
        block_margins: m,
        baselines: Baselines { first: None, last: None },
    })
}

fn start_of(f: &PlacedFragment) -> i32 {
    match f {
        PlacedFragment::Box(b) => b.content_block_start.0,
        _ => panic!("not a box"),
    }
}

fn sides<T: Copy>(v: T) -> LogicalSides<T> {
    LogicalSides { inline_start: v, inline_end: v, block_start: v, block_end: v }
}

fn pbm(margin_start: AuOrAuto, margin_end: AuOrAuto, pb_inline: i32) -> PaddingBorderMargin {
    PaddingBorderMargin {
        padding: sides(Au(0)),
        border: sides(Au(0)),
        margin: LogicalSides {
            inline_start: margin_start,
            inline_end: margin_end,
            block_start: AuOrAuto::Auto,
            block_end: AuOrAuto::LengthPercentage(Au(7)),
        },
        padding_border_sums: LogicalVec2 { inline: Au(pb_inline), block: Au(0) },
    }
}

fn cb(inline: i32, text_align: TextAlignKeyword) -> ContainingBlock {
    ContainingBlock {
        inline_size: Au(inline),
        block_size_is_definite: false,
        style: ContainingBlockStyle { text_align, line_left_is_inline_start: true },
    }
}

fn align(value: AlignKeyword) -> AlignFlags {
    AlignFlags { value, modifier: AlignModifier::Plain }
}

#[test]
fn collapsed_margins_follow_css2() {
    assert_eq!(CollapsedMargin::new(Au(10)).adjoin(&CollapsedMargin::new(Au(-4))).solve(), Au(6));
    assert_eq!(CollapsedMargin::new(Au(10)).adjoin(&CollapsedMargin::new(Au(20))).solve(), Au(20));
    assert_eq!(CollapsedMargin::new(Au(-3)).adjoin(&CollapsedMargin::new(Au(-8))).solve(), Au(-8));
    assert_eq!(CollapsedMargin::zero().solve(), Au(0));
    let a = CollapsedMargin::new(Au(5));
    let b = CollapsedMargin::new(Au(-2));
    assert_eq!(a.adjoin(&b), b.adjoin(&a));
    let mut c = a;
    c.adjoin_assign(&CollapsedMargin::zero());
    assert_eq!(c, a);
}

#[test]
fn block_margins_from_margin() {
    let m = CollapsedBlockMargins::from_margin(&LogicalSides {
        inline_start: Au(1),
        inline_end: Au(2),
        block_start: Au(3),
        block_end: Au(-4),
    });
    assert!(!m.collapsed_through);
    assert_eq!(m.start.solve(), Au(3));
    assert_eq!(m.end.solve(), Au(-4));
    assert_eq!(CollapsedBlockMargins::zero().end, CollapsedMargin::zero());
}

#[test]
fn sibling_margins_collapse_and_first_start_margin_goes_to_parent() {
    let mut state = PlacementState::new(true, false);
    let mut first = block(100, margins(10, 5, false), None);
    state.place_fragment_and_update_baseline(&mut first, false);
    assert_eq!(start_of(&first), 0);
    assert_eq!(state.start_margin.solve(), Au(10));
    let mut second = block(50, margins(20, 0, false), None);
    state.place_fragment_and_update_baseline(&mut second, false);
    // The 5 and 20 margins collapse to 20.
    assert_eq!(start_of(&second), 120);
    assert_eq!(state.current_block_direction_position, Au(170));
    let (size, collapsed, _) = state.finish();
    assert_eq!(size, Au(170));
    assert!(!collapsed.collapsed_through);
    assert_eq!(collapsed.start.solve(), Au(10));
    assert_eq!(collapsed.end.solve(), Au(0));
}

#[test]
fn clearance_separates_margins() {
    let mut state = PlacementState::new(true, false);
    let mut first = block(100, margins(0, 30, false), None);
    state.place_fragment(&mut first, false);
    let mut cleared = block(40, margins(10, 0, false), Some(25));
    state.place_fragment(&mut cleared, false);
    // The 30 margin is added before the clearance; the 10 margin no longer collapses with it.
    assert_eq!(start_of(&cleared), 140);
    assert_eq!(state.current_block_direction_position, Au(100 + 30 + 10 + 40 + 25));
    assert!(!state.next_in_flow_margin_collapses_with_parent_start_margin);
}

#[test]
fn collapsed_through_box_with_clearance_keeps_end_margin_out_of_parent() {
    let mut state = PlacementState::new(false, false);
    let mut first = block(10, margins(0, 0, false), None);
    state.place_fragment(&mut first, false);
    let mut empty = block(0, margins(4, 6, true), Some(8));
    state.place_fragment(&mut empty, false);
    assert!(!state.last_in_flow_margin_collapses_with_parent_end_margin);
    let (size, collapsed, _) = state.finish();
    assert_eq!(size, Au(10 + 8 + 6));
    assert_eq!(collapsed.end, CollapsedMargin::zero());
}

#[test]
fn outside_marker_does_not_advance_and_prevents_collapsing_through() {
    let mut state = PlacementState::new(true, false);
    let mut marker = PlacedFragment::Box(BoxFragmentInfo {
        is_outside_marker: true,
        is_table_wrapper: false,
        content_block_start: Au(0),
        content_block_size: Au(33),
        border_block_size: Au(33),
        clearance: None,
        block_margins: margins(0, 0, false),
        baselines: Baselines { first: None, last: None },
    });
    state.place_fragment(&mut marker, false);
    assert_eq!(state.current_block_direction_position, Au(0));
    assert_eq!(state.marker_block_size, Some(Au(33)));
    let (size, collapsed, _) = state.finish();
    assert_eq!(size, Au(33));
    assert!(!collapsed.collapsed_through);
}

#[test]
fn empty_container_collapses_through() {
    let (size, collapsed, baselines) = PlacementState::new(true, false).finish();
    assert_eq!(size, Au(0));
    assert!(collapsed.collapsed_through);
    assert_eq!(baselines, Baselines::default());
}

#[test]
fn abspos_float_and_baselines() {
    let mut state = PlacementState::new(false, false);
    let mut first = PlacedFragment::Box(BoxFragmentInfo {
        is_outside_marker: false,
        is_table_wrapper: false,
        content_block_start: Au(0),
        content_block_size: Au(20),
        border_block_size: Au(20),
        clearance: None,
        block_margins: margins(0, 12, false),
        baselines: Baselines { first: Some(Au(15)), last: Some(Au(18)) },
    });
    state.place_fragment_and_update_baseline(&mut first, false);
    let mut abspos = PlacedFragment::AbsoluteOrFixedPositioned { static_position_block: Au(0) };
    state.place_fragment(&mut abspos, false);
    assert_eq!(abspos, PlacedFragment::AbsoluteOrFixedPositioned { static_position_block: Au(32) });
    let mut float = PlacedFragment::Float;
    let placement = state.place_fragment(&mut float, true).unwrap();
    assert_eq!(placement.block_offset_from_containing_block_top, Au(32));
    let mut second = PlacedFragment::Box(BoxFragmentInfo {
        is_outside_marker: false,
        is_table_wrapper: false,
        content_block_start: Au(0),
        content_block_size: Au(10),
        border_block_size: Au(10),
        clearance: None,
        block_margins: margins(0, 0, false),
        baselines: Baselines { first: Some(Au(3)), last: Some(Au(9)) },
    });
    state.place_fragment_and_update_baseline(&mut second, false);
    assert_eq!(state.inflow_baselines.first, Some(Au(15)));
    assert_eq!(state.inflow_baselines.last, Some(Au(32 + 9)));
}

#[test]
fn table_baselines_are_skipped_in_inline_block() {
    let mut state = PlacementState::new(false, true);
    let mut table = PlacedFragment::Box(BoxFragmentInfo {
        is_outside_marker: false,
        is_table_wrapper: true,
        content_block_start: Au(0),
        content_block_size: Au(10),
        border_block_size: Au(10),
        clearance: None,
        block_margins: margins(0, 0, false),
        baselines: Baselines { first: Some(Au(3)), last: Some(Au(9)) },
    });
    state.place_fragment_and_update_baseline(&mut table, false);
    assert_eq!(state.inflow_baselines, Baselines::default());
}

fn sizes(min: i32, max: i32) -> InlineContentSizesResult {
    InlineContentSizesResult {
        sizes: ContentSizes { min_content: Au(min), max_content: Au(max) },
        depends_on_block_constraints: false,
    }
}

#[test]
fn floats_on_one_side_sum_their_max_content() {
    let boxes = vec![
        BlockLevelBoxSizing::OutOfFlowFloatBox {
            sizes: sizes(10, 100),
            side: Some(FloatSide::InlineStart),
            clear: Clear::Neither,
        },
        BlockLevelBoxSizing::OutOfFlowFloatBox {
            sizes: sizes(20, 50),
            side: Some(FloatSide::InlineStart),
            clear: Clear::Neither,
        },
        BlockLevelBoxSizing::OutOfFlowAbsolutelyPositionedBox,
    ];
    let r = compute_inline_content_sizes_for_block_level_boxes(&boxes);
    assert_eq!(r.sizes, ContentSizes { min_content: Au(20), max_content: Au(150) });
    assert!(!r.depends_on_block_constraints);
}

#[test]
fn same_context_block_clears_floats_but_independent_one_sits_beside() {
    let floats_then = |last: BlockLevelBoxSizing| {
        vec![
            BlockLevelBoxSizing::OutOfFlowFloatBox {
                sizes: sizes(20, 150),
                side: Some(FloatSide::InlineEnd),
                clear: Clear::Neither,
            },
            last,
        ]
    };
    let same = floats_then(BlockLevelBoxSizing::SameFormattingContextBlock { sizes: sizes(5, 60) });
    let r = compute_inline_content_sizes_for_block_level_boxes(&same);
    assert_eq!(r.sizes, ContentSizes { min_content: Au(20), max_content: Au(150) });
    let independent =
        floats_then(BlockLevelBoxSizing::Independent { sizes: sizes(5, 60), clear: Clear::Neither });
    let r = compute_inline_content_sizes_for_block_level_boxes(&independent);
    assert_eq!(r.sizes, ContentSizes { min_content: Au(20), max_content: Au(210) });
    let marker = vec![BlockLevelBoxSizing::OutsideMarker];
    assert_eq!(compute_inline_content_sizes_for_block_level_boxes(&marker).sizes, ContentSizes::zero());
}

#[test]
fn negative_sizes_count_as_zero_and_dependence_propagates() {
    let boxes = vec![BlockLevelBoxSizing::Independent {
        sizes: InlineContentSizesResult {
            sizes: ContentSizes { min_content: Au(-5), max_content: Au(-7) },
            depends_on_block_constraints: true,
        },
        clear: Clear::Both,
    }];
    let r = compute_inline_content_sizes_for_block_level_boxes(&boxes);
    assert_eq!(r.sizes, ContentSizes::zero());
    assert!(r.depends_on_block_constraints);
}

#[test]
fn justification() {
    let c = cb(100, TextAlignKeyword::Start);
    assert_eq!(justify_self_alignment(&c, Au(10), align(AlignKeyword::Center)), Au(5));
    assert_eq!(justify_self_alignment(&c, Au(10), align(AlignKeyword::End)), Au(10));
    assert_eq!(justify_self_alignment(&c, Au(10), align(AlignKeyword::Start)), Au(0));
    assert_eq!(justify_self_alignment(&c, Au(10), align(AlignKeyword::Normal)), Au(0));
    let safe_end = AlignFlags { value: AlignKeyword::End, modifier: AlignModifier::Safe };
    assert_eq!(justify_self_alignment(&c, Au(-10), safe_end), Au(0));
    assert_eq!(justify_self_alignment(&c, Au(-10), align(AlignKeyword::End)), Au(-10));
    let centered = cb(100, TextAlignKeyword::MozCenter);
    assert_eq!(justify_self_alignment(&centered, Au(11), align(AlignKeyword::Normal)), Au(5));
    let right = cb(100, TextAlignKeyword::MozRight);
    assert_eq!(justify_self_alignment(&right, Au(11), align(AlignKeyword::Normal)), Au(11));
    let left = cb(100, TextAlignKeyword::MozLeft);
    assert_eq!(justify_self_alignment(&left, Au(11), align(AlignKeyword::Normal)), Au(0));
}

#[test]
fn inline_margins_in_flow() {
    let c = cb(100, TextAlignKeyword::Start);
    let auto = AuOrAuto::Auto;
    let five = AuOrAuto::LengthPercentage(Au(5));
    let js = align(AlignKeyword::Normal);
    assert_eq!(solve_inline_margins_for_in_flow_block_level(&c, &pbm(auto, auto, 10), Au(50), js), ((Au(20), Au(20)), Au(20)));
    assert_eq!(solve_inline_margins_for_in_flow_block_level(&c, &pbm(auto, auto, 10), Au(51), js), ((Au(19), Au(20)), Au(19)));
    assert_eq!(solve_inline_margins_for_in_flow_block_level(&c, &pbm(auto, five, 10), Au(50), js), ((Au(35), Au(5)), Au(35)));
    assert_eq!(solve_inline_margins_for_in_flow_block_level(&c, &pbm(five, auto, 10), Au(50), js), ((Au(5), Au(35)), Au(5)));
    let center = align(AlignKeyword::Center);
    assert_eq!(solve_inline_margins_for_in_flow_block_level(&c, &pbm(five, five, 10), Au(50), center), ((Au(5), Au(5)), Au(20)));
    // Over-constrained: auto margins do not go negative on the start side.
    assert_eq!(solve_inline_margins_for_in_flow_block_level(&c, &pbm(auto, auto, 10), Au(120), js), ((Au(0), Au(-30)), Au(0)));
    let resolved = solve_margins(&c, &pbm(auto, auto, 10), Au(50), js);
    assert_eq!(resolved.margin.inline_start, Au(20));
    assert_eq!(resolved.margin.block_start, Au(0));
    assert_eq!(resolved.margin.block_end, Au(7));
    assert_eq!(resolved.effective_margin_inline_start, Au(20));
    assert_eq!(solve_block_margins_for_in_flow_block_level(&pbm(auto, auto, 0)), (Au(0), Au(7)));
}

#[test]
fn inline_margins_among_floats() {
    let c = cb(200, TextAlignKeyword::Start);
    let extent = ContainingBlockInlineExtent { inline_start: Au(0), inline_end: Au(200) };
    let rect = LogicalRect { start_inline: Au(30), start_block: Au(0), inline_size: Au(100), block_size: Au(10) };
    let js = align(AlignKeyword::Normal);
    let auto = AuOrAuto::Auto;
    let five = AuOrAuto::LengthPercentage(Au(5));
    assert_eq!(solve_inline_margins_avoiding_floats(&extent, &c, &pbm(auto, auto, 0), Au(60), rect, js), ((Au(50), Au(90)), Au(50)));
    assert_eq!(solve_inline_margins_avoiding_floats(&extent, &c, &pbm(auto, five, 0), Au(60), rect, js), ((Au(70), Au(5)), Au(70)));
    assert_eq!(solve_inline_margins_avoiding_floats(&extent, &c, &pbm(five, auto, 0), Au(60), rect, js), ((Au(5), Au(110)), Au(30)));
    let end = align(AlignKeyword::End);
    assert_eq!(solve_inline_margins_avoiding_floats(&extent, &c, &pbm(five, five, 0), Au(60), rect, end), ((Au(5), Au(5)), Au(70)));
}

#[test]
fn justify_self_resolution() {
    let ltr = |justify_self: AlignFlags| JustifyStyle {
        justify_self,
        justify_items: align(AlignKeyword::Center),
        line_left_is_inline_start: true,
    };
    let rtl_parent = JustifyStyle {
        justify_self: align(AlignKeyword::Auto),
        justify_items: align(AlignKeyword::Left),
        line_left_is_inline_start: false,
    };
    assert_eq!(resolve_justify_self(&ltr(align(AlignKeyword::Auto)), &ltr(align(AlignKeyword::Auto))), align(AlignKeyword::Center));
    assert_eq!(resolve_justify_self(&ltr(align(AlignKeyword::Left)), &ltr(align(AlignKeyword::Auto))), align(AlignKeyword::Start));
    assert_eq!(resolve_justify_self(&ltr(align(AlignKeyword::Left)), &rtl_parent), align(AlignKeyword::End));
    assert_eq!(resolve_justify_self(&ltr(align(AlignKeyword::Auto)), &rtl_parent), align(AlignKeyword::End));
    assert_eq!(resolve_justify_self(&ltr(align(AlignKeyword::SelfStart)), &rtl_parent), align(AlignKeyword::End));
    let safe_right = AlignFlags { value: AlignKeyword::Right, modifier: AlignModifier::Safe };
    assert_eq!(
        resolve_justify_self(&ltr(safe_right), &ltr(align(AlignKeyword::Auto))),
        AlignFlags { value: AlignKeyword::End, modifier: AlignModifier::Safe }
    );
}

#[test]
fn automatic_inline_sizes() {
    assert_eq!(automatic_inline_size(align(AlignKeyword::Stretch), true, true), AutomaticSize::Stretch);
    assert_eq!(automatic_inline_size(align(AlignKeyword::Normal), false, false), AutomaticSize::Stretch);
    assert_eq!(automatic_inline_size(align(AlignKeyword::Normal), true, false), AutomaticSize::FitContent);
    assert_eq!(automatic_inline_size(align(AlignKeyword::Center), false, false), AutomaticSize::FitContent);
    let safe_stretch = AlignFlags { value: AlignKeyword::Stretch, modifier: AlignModifier::Safe };
    assert_eq!(automatic_inline_size(safe_stretch, false, false), AutomaticSize::FitContent);
}

#[test]
fn zero_or_intrinsic_block_sizes() {
    let indefinite = cb(10, TextAlignKeyword::Start);
    let mut definite = indefinite;
    definite.block_size_is_definite = true;
    assert!(block_size_is_zero_or_intrinsic(&StyleSize::Auto, &definite));
    assert!(block_size_is_zero_or_intrinsic(&StyleSize::FitContentFunction, &definite));
    assert!(block_size_is_zero_or_intrinsic(&StyleSize::Stretch, &indefinite));
    assert!(!block_size_is_zero_or_intrinsic(&StyleSize::Stretch, &definite));
    let percent = StyleSize::LengthPercentage { is_definitely_zero: false, has_percentage: true };
    assert!(block_size_is_zero_or_intrinsic(&percent, &indefinite));
    assert!(!block_size_is_zero_or_intrinsic(&percent, &definite));
    let zero = StyleSize::LengthPercentage { is_definitely_zero: true, has_percentage: false };
    assert!(block_size_is_zero_or_intrinsic(&zero, &definite));
}

fn margin_style(start: i32, end: i32) -> BlockMarginStyle {
    BlockMarginStyle {
        clear_is_none: true,
        margin_block_start: Au(start),
        margin_block_end: Au(end),
        padding_block_start: Au(0),
        border_block_start: Au(0),
        padding_border_block_sum: Au(0),
        block_size_is_zero_or_intrinsic: true,
        min_block_size_is_zero_or_intrinsic: true,
    }
}

#[test]
fn floats_are_found_in_containers() {
    let boxes = BlockContainer::BlockLevelBoxes(vec![
        BlockLevelBox::OutsideMarker,
        BlockLevelBox::SameFormattingContextBlock {
            style: margin_style(0, 0),
            contents: BlockContainer::InlineFormattingContext { contains_floats: true },
            contains_floats: true,
        },
    ]);
    assert!(boxes.contains_floats());
    let none = BlockContainer::BlockLevelBoxes(vec![BlockLevelBox::OutOfFlowAbsolutelyPositionedBox]);
    assert!(!none.contains_floats());
    assert!(BlockLevelBox::OutOfFlowFloatBox.contains_floats());
    assert!(!BlockContainer::InlineFormattingContext { contains_floats: false }.contains_floats());
}

#[test]
fn margins_collapse_through_empty_blocks_into_the_parent() {
    let empty_child = BlockLevelBox::SameFormattingContextBlock {
        style: margin_style(8, -3),
        contents: BlockContainer::BlockLevelBoxes(vec![]),
        contains_floats: false,
    };
    let parent = BlockLevelBox::SameFormattingContextBlock {
        style: margin_style(5, 12),
        contents: BlockContainer::BlockLevelBoxes(vec![empty_child, BlockLevelBox::OutOfFlowFloatBox]),
        contains_floats: true,
    };
    let mut collected = CollapsedMargin::zero();
    assert!(parent.find_block_margin_collapsing_with_parent(&mut collected));
    assert_eq!(collected.solve(), Au(12 - 3));

    let stopped = BlockLevelBox::SameFormattingContextBlock {
        style: margin_style(5, 12),
        contents: BlockContainer::BlockLevelBoxes(vec![BlockLevelBox::OutsideMarker]),
        contains_floats: false,
    };
    let mut collected = CollapsedMargin::zero();
    assert!(!stopped.find_block_margin_collapsing_with_parent(&mut collected));
    assert_eq!(collected.solve(), Au(5));

    let mut cleared = margin_style(40, 0);
    cleared.clear_is_none = false;
    let mut collected = CollapsedMargin::zero();
    assert!(!BlockLevelBox::Independent { style: cleared }.find_block_margin_collapsing_with_parent(&mut collected));
    assert_eq!(collected, CollapsedMargin::zero());
}

#[test]
fn margins_with_children_after_layout() {
    let m = LogicalSides { inline_start: Au(0), inline_end: Au(0), block_start: Au(4), block_end: Au(6) };
    let p = pbm(AuOrAuto::Auto, AuOrAuto::Auto, 0);
    let children = margins(10, 9, false);
    let (collapsed, size, end_collapses) =
        collapse_margins_with_children(&m, &p, Au(100), children, true, true, false);
    assert_eq!(collapsed.start.solve(), Au(10));
    assert_eq!(collapsed.end.solve(), Au(9));
    assert!(end_collapses);
    assert_eq!(size, Au(100));
    let (collapsed, size, end_collapses) =
        collapse_margins_with_children(&m, &p, Au(100), children, true, true, true);
    assert!(!end_collapses);
    assert_eq!(size, Au(109));
    assert_eq!(collapsed.end.solve(), Au(6));
    let through = margins(10, 20, true);
    let (collapsed, _, _) = collapse_margins_with_children(&m, &p, Au(0), through, true, true, true);
    assert!(collapsed.collapsed_through);
    assert_eq!(collapsed.start.solve(), Au(20));
}

#[test]
fn formatting_context_sizes_and_marker_rect() {
    let end = margins(0, 15, false);
    assert_eq!(block_formatting_context_content_block_size(Au(100), &end, Some(Au(7))), Au(122));
    assert_eq!(block_formatting_context_content_block_size(Au(100), &end, None), Au(115));
    assert!(lays_out_sequentially(true, true));
    assert!(lays_out_sequentially(false, false));
    assert!(!lays_out_sequentially(false, true));
    let rect = outside_marker_content_rect(&vec![Au(30), Au(45), Au(-5)], Au(2), Au(3), Au(17));
    assert_eq!(rect, LogicalRect { start_inline: Au(-50), start_block: Au(0), inline_size: Au(45), block_size: Au(17) });
    let empty = outside_marker_content_rect(&vec![], Au(0), Au(0), Au(0));
    assert_eq!(empty.inline_size, Au(0));
}

#[test]
fn available_space_is_floored_at_zero() {
    let sums = LogicalVec2 { inline: Au(30), block: Au(50) };
    assert_eq!(servo::flow::available_space(Au(100), Some(Au(40)), &sums), (Au(70), Some(Au(0))));
    assert_eq!(servo::flow::available_space(Au(10), None, &sums), (Au(0), None));
}

#[test]
fn stretch_margins_and_content_rect() {
    let mut p = pbm(AuOrAuto::Auto, AuOrAuto::Auto, 0);
    assert_eq!(servo::flow::ignore_block_margins_for_stretch(&p), (true, true));
    p.border.block_end = Au(1);
    assert_eq!(servo::flow::ignore_block_margins_for_stretch(&p), (true, false));
    p.padding.block_start = Au(4);
    p.border.block_start = Au(2);
    p.padding.inline_start = Au(3);
    p.border.inline_start = Au(1);
    let rect = servo::flow::in_flow_content_rect(&p, Some(Au(10)), Au(6), Au(80), Au(20));
    assert_eq!(rect, LogicalRect { start_inline: Au(10), start_block: Au(16), inline_size: Au(80), block_size: Au(20) });
    let rect = servo::flow::in_flow_content_rect(&p, None, Au(0), Au(80), Au(20));
    assert_eq!(rect.start_block, Au(6));
}

#[test]
fn clearance_of_independent_boxes() {
    assert_eq!(servo::flow::independent_clearance(None, Au(50), Au(50), Au(40)), None);
    assert_eq!(servo::flow::independent_clearance(None, Au(60), Au(50), Au(40)), Some(Au(20)));
    assert_eq!(servo::flow::independent_clearance(Some(Au(50)), Au(50), Au(50), Au(40)), Some(Au(10)));
}

#[test]
fn sequential_layout_operations() {
    let mut p = pbm(AuOrAuto::Auto, AuOrAuto::Auto, 0);
    p.padding.block_start = Au(4);
    p.border.block_start = Au(1);
    p.padding.inline_start = Au(2);
    p.padding.block_end = Au(3);
    let m = CollapsedMargin::new(Au(10));
    let start = servo::flow::block_start_ops(Some(Au(6)), m, false, &p, Au(5), Au(90));
    assert_eq!(
        start,
        vec![
            SequentialOp::CollapseMargins,
            SequentialOp::AdjoinMargin(m),
            SequentialOp::CollapseMargins,
            SequentialOp::AdvanceBlockPosition(Au(11)),
            SequentialOp::EnterContainingBlock { inline_offset: Au(7), inline_size: Au(90) },
        ]
    );
    let start = servo::flow::block_start_ops(None, m, true, &p, Au(0), Au(90));
    assert_eq!(start.len(), 3);
    let end = servo::flow::block_end_ops(Au(50), Au(40), &p, false, Au(8));
    assert_eq!(
        end,
        vec![
            SequentialOp::LeaveContainingBlock,
            SequentialOp::AdvanceBlockPosition(Au(13)),
            SequentialOp::CollapseMargins,
            SequentialOp::AdjoinMargin(CollapsedMargin::new(Au(8))),
        ]
    );
    let independent = servo::flow::independent_block_ops(None, Au(3), Au(2), Au(20), Au(-4));
    assert_eq!(
        independent,
        vec![
            SequentialOp::AdjoinMargin(CollapsedMargin::new(Au(3))),
            SequentialOp::CollapseMargins,
            SequentialOp::AdvanceBlockPosition(Au(22)),
            SequentialOp::AdjoinMargin(CollapsedMargin::new(Au(-4))),
        ]
    );
}

#[test]
fn block_start_margin_for_clearance_looks_into_children() {
    let children = BlockContainer::BlockLevelBoxes(vec![BlockLevelBox::SameFormattingContextBlock {
        style: margin_style(15, 0),
        contents: BlockContainer::BlockLevelBoxes(vec![BlockLevelBox::OutsideMarker]),
        contains_floats: false,
    }]);
    let m = servo::flow::block_start_margin_for_clearance(Au(5), false, true, true, &children);
    assert_eq!(m.solve(), Au(15));
    let m = servo::flow::block_start_margin_for_clearance(Au(5), true, true, true, &children);
    assert_eq!(m.solve(), Au(5));
    let m = servo::flow::block_start_margin_for_clearance(Au(5), true, false, true, &children);
    assert_eq!(m.solve(), Au(15));
}

#[test]
fn anonymous_boxes_pass_their_containing_block_on() {
    let r = servo::flow::anonymous_block_padding_and_border(Au(300), Some(Au(40)));
    assert_eq!(r.children_inline_size, Au(300));
    assert_eq!(r.children_block_size, Some(Au(40)));
    assert_eq!(r.pbm.padding_border_sums.inline, Au(0));
    assert!(!r.depends_on_block_constraints);
    assert_eq!(r.available_block_size, None);
    assert_eq!(r.justify_self, align(AlignKeyword::Normal));
}

fn float_pbm() -> PaddingBorderMargin {
    PaddingBorderMargin {
        padding: LogicalSides { inline_start: Au(1), inline_end: Au(2), block_start: Au(3), block_end: Au(4) },
        border: LogicalSides { inline_start: Au(10), inline_end: Au(20), block_start: Au(30), block_end: Au(40) },
        margin: LogicalSides {
            inline_start: AuOrAuto::Auto,
            inline_end: AuOrAuto::LengthPercentage(Au(100)),
            block_start: AuOrAuto::LengthPercentage(Au(-5)),
            block_end: AuOrAuto::Auto,
        },
        padding_border_sums: LogicalVec2 { inline: Au(33), block: Au(77) },
    }
}

#[test]
fn float_or_atomic_margins_and_sums() {
    let sides = float_or_atomic_box_sides(&float_pbm());
    assert_eq!(sides.margin.inline_start, Au(0));
    assert_eq!(sides.margin.inline_end, Au(100));
    assert_eq!(sides.margin.block_start, Au(-5));
    assert_eq!(sides.margin.block_end, Au(0));
    assert_eq!(sides.pbm_sums.inline_start, Au(11));
    assert_eq!(sides.pbm_sums.inline_end, Au(122));
    assert_eq!(sides.pbm_sums.block_start, Au(28));
    assert_eq!(sides.pbm_sums.block_end, Au(44));
}

#[test]
fn float_or_atomic_available_space_subtracts_both_sides() {
    assert_eq!(float_or_atomic_available_space(Au(1000), Some(Au(500)), &float_pbm()), (Au(867), Some(Au(428))));
    assert_eq!(float_or_atomic_available_space(Au(100), None, &float_pbm()), (Au(0), None));
}

#[test]
fn table_content_inline_size_wins() {
    assert_eq!(content_inline_size(Some(Au(40)), Au(60)), Au(40));
    assert_eq!(content_inline_size(None, Au(60)), Au(60));
}
