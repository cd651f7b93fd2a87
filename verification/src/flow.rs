//! Flow layout, also known as block-and-inline layout: margin collapsing, the placement of
//! block-level fragments, the resolution of inline margins and the inline content sizes of a
//! block container.
//!
//! The boxes, fragments and styles of the layout tree are represented here by the values
//! that this logic reads of them.

use vstd::prelude::*;
use crate::app_unit::{
    Au, add_au, sub_au, max_au, min_au, half_au, lemma_plus_valid, MIN_AU_VALUE,
    MAX_AU_VALUE,
};

verus! {

/// A value for each of the four sides of a box, in the logical directions.
#[derive(Debug, PartialEq, Eq)]
pub struct LogicalSides<T> {
    pub inline_start: T,
    pub inline_end: T,
    pub block_start: T,
    pub block_end: T,
}

impl<T: Copy> Clone for LogicalSides<T> {
    fn clone(&self) -> (r: Self)
        ensures
            r == *self,
    {
        *self
    }
}

impl<T: Copy> Copy for LogicalSides<T> {
}

/// A value for each of the two logical axes.
#[derive(Debug, PartialEq, Eq)]
pub struct LogicalVec2<T> {
    pub inline: T,
    pub block: T,
}

impl<T: Copy> Clone for LogicalVec2<T> {
    fn clone(&self) -> (r: Self)
        ensures
            r == *self,
    {
        *self
    }
}

impl<T: Copy> Copy for LogicalVec2<T> {
}

/// A length, or `auto`.
#[derive(Clone, Copy, Debug, PartialEq, Eq, Structural)]
pub enum AuOrAuto {
    Auto,
    LengthPercentage(Au),
}

impl AuOrAuto {
    /// The length, with `auto` as zero.
    pub open spec fn auto_is_zero_spec(self) -> Au {
        match self {
            AuOrAuto::Auto => Au(0),
            AuOrAuto::LengthPercentage(v) => v,
        }
    }

    /// The length, with `auto` as zero.
    pub fn auto_is_zero(&self) -> (r: Au)
        ensures
            r == self.auto_is_zero_spec(),
    {
        match self {
            AuOrAuto::Auto => Au::zero(),
            AuOrAuto::LengthPercentage(v) => *v,
        }
    }

    pub open spec fn is_valid(self) -> bool {
        match self {
            AuOrAuto::Auto => true,
            AuOrAuto::LengthPercentage(v) => v.is_valid(),
        }
    }
}

/// The padding, border and margin of a box, as resolved against its containing block.
#[derive(Clone, Copy, Debug)]
pub struct PaddingBorderMargin {
    pub padding: LogicalSides<Au>,
    pub border: LogicalSides<Au>,
    pub margin: LogicalSides<AuOrAuto>,
    /// The sums of padding and border in each axis.
    pub padding_border_sums: LogicalVec2<Au>,
}

impl PaddingBorderMargin {
    pub open spec fn is_valid(self) -> bool {
        &&& self.padding.inline_start.is_valid()
        &&& self.padding.inline_end.is_valid()
        &&& self.padding.block_start.is_valid()
        &&& self.padding.block_end.is_valid()
        &&& self.border.inline_start.is_valid()
        &&& self.border.inline_end.is_valid()
        &&& self.border.block_start.is_valid()
        &&& self.border.block_end.is_valid()
        &&& self.margin.inline_start.is_valid()
        &&& self.margin.inline_end.is_valid()
        &&& self.margin.block_start.is_valid()
        &&& self.margin.block_end.is_valid()
        &&& self.padding_border_sums.inline.is_valid()
        &&& self.padding_border_sums.block.is_valid()
    }
}

/// A collapsed margin: the largest positive margin and the most negative margin among a set
/// of adjoining margins.
#[derive(Clone, Copy, Debug, PartialEq, Eq, Structural, Default)]
pub struct CollapsedMargin {
    pub max_positive: Au,
    pub min_negative: Au,
}

/// The margin that results from collapsing two sets of adjoining margins.
pub open spec fn adjoin_spec(a: CollapsedMargin, b: CollapsedMargin) -> CollapsedMargin {
    CollapsedMargin {
        max_positive: max_au(a.max_positive, b.max_positive),
        min_negative: min_au(a.min_negative, b.min_negative),
    }
}

/// The collapsed margin of a single margin.
pub open spec fn collapsed_margin_spec(margin: Au) -> CollapsedMargin {
    CollapsedMargin { max_positive: max_au(margin, Au(0)), min_negative: min_au(margin, Au(0)) }
}

/// The collapsed margin of no margin at all.
pub open spec fn zero_margin() -> CollapsedMargin {
    CollapsedMargin { max_positive: Au(0), min_negative: Au(0) }
}

impl CollapsedMargin {
    /// The positive part is non-negative, the negative part non-positive, both valid.
    pub open spec fn is_valid(self) -> bool {
        &&& 0 <= self.max_positive.0 <= MAX_AU_VALUE
        &&& MIN_AU_VALUE <= self.min_negative.0 <= 0
    }

    /// The resulting margin: the largest positive margin plus the most negative one.
    pub open spec fn solve_spec(self) -> Au {
        Au((self.max_positive.0 + self.min_negative.0) as i32)
    }

    /// No margin.
    pub fn zero() -> (r: CollapsedMargin)
        ensures
            r == zero_margin(),
    {
        CollapsedMargin { max_positive: Au::zero(), min_negative: Au::zero() }
    }

    /// The collapsed margin of a single margin.
    pub fn new(margin: Au) -> (r: CollapsedMargin)
        ensures
            r == collapsed_margin_spec(margin),
    {
        CollapsedMargin { max_positive: margin.max(Au::zero()), min_negative: margin.min(Au::zero()) }
    }

    /// Collapses this margin with another.
    pub fn adjoin(&self, other: &CollapsedMargin) -> (r: CollapsedMargin)
        ensures
            r == adjoin_spec(*self, *other),
    {
        CollapsedMargin {
            max_positive: self.max_positive.max(other.max_positive),
            min_negative: self.min_negative.min(other.min_negative),
        }
    }

    /// Collapses another margin into this one.
    pub fn adjoin_assign(&mut self, other: &CollapsedMargin)
        ensures
            *final(self) == adjoin_spec(*old(self), *other),
    {
        *self = self.adjoin(other);
    }

    /// The resulting margin.
    pub fn solve(&self) -> (r: Au)
        requires
            self.is_valid(),
        ensures
            r == self.solve_spec(),
            r.is_valid(),
    {
        Au(self.max_positive.0 + self.min_negative.0)
    }
}

/// Collapsing margins is commutative and associative, no margin is its identity, and a margin
/// collapsed with itself is unchanged.
pub proof fn lemma_adjoin_laws(a: CollapsedMargin, b: CollapsedMargin, c: CollapsedMargin)
    requires
        a.is_valid(),
    ensures
        adjoin_spec(a, b) == adjoin_spec(b, a),
        adjoin_spec(adjoin_spec(a, b), c) == adjoin_spec(a, adjoin_spec(b, c)),
        adjoin_spec(a, zero_margin()) == a,
        adjoin_spec(a, a) == a,
{
}

/// Collapsing valid margins gives a valid margin.
pub proof fn lemma_adjoin_valid(a: CollapsedMargin, b: CollapsedMargin)
    requires
        a.is_valid(),
        b.is_valid(),
    ensures
        adjoin_spec(a, b).is_valid(),
{
}

/// The collapsed margin of one valid margin is valid and resolves to that margin.
pub proof fn lemma_single_margin(m: Au)
    requires
        m.is_valid(),
    ensures
        collapsed_margin_spec(m).is_valid(),
        collapsed_margin_spec(m).solve_spec() == m,
{
}

/// Two adjoining margins collapse as CSS 2 says: to the larger when both are non-negative, to
/// the more negative when both are non-positive, and to their sum otherwise.
pub proof fn lemma_two_margins_collapse(a: Au, b: Au)
    requires
        a.is_valid(),
        b.is_valid(),
    ensures
        ({
            let r = adjoin_spec(collapsed_margin_spec(a), collapsed_margin_spec(b)).solve_spec().0;
            &&& (a.0 >= 0 && b.0 >= 0) ==> r == max_au(a, b).0
            &&& (a.0 <= 0 && b.0 <= 0) ==> r == min_au(a, b).0
            &&& (a.0 >= 0 && b.0 <= 0) ==> r == a.0 + b.0
            &&& (a.0 <= 0 && b.0 >= 0) ==> r == a.0 + b.0
        }),
{
}

/// The margins of a block-level box that collapse through it or with its parent.
#[derive(Clone, Copy, Debug, PartialEq, Eq, Structural)]
pub struct CollapsedBlockMargins {
    pub collapsed_through: bool,
    pub start: CollapsedMargin,
    pub end: CollapsedMargin,
}

impl CollapsedBlockMargins {
    pub open spec fn is_valid(self) -> bool {
        self.start.is_valid() && self.end.is_valid()
    }

    /// The block margins of a box whose margins collapse with nothing inside it.
    pub fn from_margin(margin: &LogicalSides<Au>) -> (r: CollapsedBlockMargins)
        ensures
            r == (CollapsedBlockMargins {
                collapsed_through: false,
                start: collapsed_margin_spec(margin.block_start),
                end: collapsed_margin_spec(margin.block_end),
            }),
    {
        CollapsedBlockMargins {
            collapsed_through: false,
            start: CollapsedMargin::new(margin.block_start),
            end: CollapsedMargin::new(margin.block_end),
        }
    }

    /// No margins, not collapsed through.
    pub fn zero() -> (r: CollapsedBlockMargins)
        ensures
            r == (CollapsedBlockMargins {
                collapsed_through: false,
                start: zero_margin(),
                end: zero_margin(),
            }),
    {
        CollapsedBlockMargins {
            collapsed_through: false,
            start: CollapsedMargin::zero(),
            end: CollapsedMargin::zero(),
        }
    }
}

/// The first and last baselines of a box, if it has them.
#[derive(Clone, Copy, Debug, PartialEq, Eq, Structural, Default)]
pub struct Baselines {
    pub first: Option<Au>,
    pub last: Option<Au>,
}

impl Baselines {
    pub open spec fn is_valid(self) -> bool {
        &&& (self.first matches Some(f) ==> f.is_valid())
        &&& (self.last matches Some(l) ==> l.is_valid())
    }
}

/// What the placement of block-level children reads of a box fragment, in the block axis of
/// the container.
#[derive(Clone, Copy, Debug, PartialEq, Eq, Structural)]
pub struct BoxFragmentInfo {
    /// The fragment is the marker of a list item with `list-style-position: outside`.
    pub is_outside_marker: bool,
    /// The fragment wraps a table.
    pub is_table_wrapper: bool,
    /// The block position of the content rectangle, relative to the container.
    pub content_block_start: Au,
    /// The block size of the content rectangle.
    pub content_block_size: Au,
    /// The block size of the border rectangle.
    pub border_block_size: Au,
    /// The clearance that was introduced above the box, if any.
    pub clearance: Option<Au>,
    /// The margins that collapse through the box or with its parent.
    pub block_margins: CollapsedBlockMargins,
    /// The baselines of the box, relative to its content rectangle.
    pub baselines: Baselines,
}

impl BoxFragmentInfo {
    pub open spec fn is_valid(self) -> bool {
        &&& self.content_block_start.is_valid()
        &&& self.content_block_size.is_valid()
        &&& self.border_block_size.is_valid()
        &&& (self.clearance matches Some(c) ==> c.is_valid())
        &&& self.block_margins.is_valid()
        &&& self.baselines.is_valid()
    }
}

/// A fragment that is placed among the block-level children of a container.
#[derive(Clone, Copy, Debug, PartialEq, Eq, Structural)]
pub enum PlacedFragment {
    Box(BoxFragmentInfo),
    /// An absolutely or fixed positioned box, with the block position of its static position.
    AbsoluteOrFixedPositioned { static_position_block: Au },
    Float,
    Positioning,
}

impl PlacedFragment {
    pub open spec fn is_valid(self) -> bool {
        match self {
            PlacedFragment::Box(b) => b.is_valid(),
            PlacedFragment::AbsoluteOrFixedPositioned { static_position_block } => static_position_block.is_valid(),
            _ => true,
        }
    }
}

/// Where a float is to be placed among the floats of the block formatting context.
#[derive(Clone, Copy, Debug, PartialEq, Eq, Structural)]
pub struct FloatPlacement {
    /// The start margin of the container that collapses with its parent.
    pub start_margin: CollapsedMargin,
    /// The block offset of the float from the top of the containing block.
    pub block_offset_from_containing_block_top: Au,
}

/// State that is maintained when placing blocks.
///
/// In parallel mode, this placement is done after all child blocks are laid out. In
/// sequential mode, this is done right after each block is laid out.
#[derive(Clone, Copy, Debug, PartialEq, Eq, Structural)]
pub struct PlacementState {
    pub next_in_flow_margin_collapses_with_parent_start_margin: bool,
    pub last_in_flow_margin_collapses_with_parent_end_margin: bool,
    pub start_margin: CollapsedMargin,
    pub current_margin: CollapsedMargin,
    pub current_block_direction_position: Au,
    pub inflow_baselines: Baselines,
    pub is_inline_block_context: bool,
    /// The block size of the outside marker of a list item, if one was placed.
    pub marker_block_size: Option<Au>,
}

/// The state and fragment after placing a box fragment that is not an outside marker.
pub open spec fn place_box_spec(s: PlacementState, f: BoxFragmentInfo) -> (PlacementState, BoxFragmentInfo) {
    let m = f.block_margins;
    // Clearance separates the margins above the box from its own.
    let (s1, block_size) = match f.clearance {
        Some(c) => (
            PlacementState {
                current_block_direction_position: add_au(
                    s.current_block_direction_position,
                    s.current_margin.solve_spec(),
                ),
                current_margin: zero_margin(),
                next_in_flow_margin_collapses_with_parent_start_margin: false,
                last_in_flow_margin_collapses_with_parent_end_margin: if m.collapsed_through {
                    false
                } else {
                    s.last_in_flow_margin_collapses_with_parent_end_margin
                },
                ..s
            },
            add_au(f.border_block_size, c),
        ),
        None => (
            PlacementState {
                last_in_flow_margin_collapses_with_parent_end_margin: if !m.collapsed_through {
                    true
                } else {
                    s.last_in_flow_margin_collapses_with_parent_end_margin
                },
                ..s
            },
            f.border_block_size,
        ),
    };
    if s1.next_in_flow_margin_collapses_with_parent_start_margin && m.collapsed_through {
        // The box collapses through into the start margin of the parent and is not moved.
        (
            PlacementState {
                start_margin: adjoin_spec(adjoin_spec(s1.start_margin, m.start), m.end),
                ..s1
            },
            f,
        )
    } else {
        let s2 = if s1.next_in_flow_margin_collapses_with_parent_start_margin {
            PlacementState {
                start_margin: adjoin_spec(s1.start_margin, m.start),
                next_in_flow_margin_collapses_with_parent_start_margin: false,
                ..s1
            }
        } else {
            PlacementState { current_margin: adjoin_spec(s1.current_margin, m.start), ..s1 }
        };
        let offset = add_au(s2.current_margin.solve_spec(), s2.current_block_direction_position);
        let moved = BoxFragmentInfo {
            content_block_start: add_au(f.content_block_start, offset),
            ..f
        };
        let s3 = if m.collapsed_through {
            PlacementState {
                current_block_direction_position: add_au(s2.current_block_direction_position, block_size),
                current_margin: adjoin_spec(s2.current_margin, m.end),
                ..s2
            }
        } else {
            PlacementState {
                current_block_direction_position: add_au(
                    s2.current_block_direction_position,
                    add_au(s2.current_margin.solve_spec(), block_size),
                ),
                current_margin: m.end,
                ..s2
            }
        };
        (s3, moved)
    }
}

/// The state, the fragment and the float placement after placing a fragment.
pub open spec fn place_fragment_spec(s: PlacementState, f: PlacedFragment) -> (
    PlacementState,
    PlacedFragment,
    Option<FloatPlacement>,
) {
    match f {
        PlacedFragment::Box(b) => if b.is_outside_marker {
            (PlacementState { marker_block_size: Some(b.content_block_size), ..s }, f, None)
        } else {
            let (s1, b1) = place_box_spec(s, b);
            (s1, PlacedFragment::Box(b1), None)
        },
        PlacedFragment::AbsoluteOrFixedPositioned { .. } => (
            s,
            PlacedFragment::AbsoluteOrFixedPositioned {
                static_position_block: add_au(
                    s.current_margin.solve_spec(),
                    s.current_block_direction_position,
                ),
            },
            None,
        ),
        PlacedFragment::Float => (
            s,
            f,
            Some(
                FloatPlacement {
                    start_margin: s.start_margin,
                    block_offset_from_containing_block_top: add_au(
                        s.current_block_direction_position,
                        s.current_margin.solve_spec(),
                    ),
                },
            ),
        ),
        PlacedFragment::Positioning => (s, f, None),
    }
}

/// The baselines of the container after a placed fragment contributed its own.
pub open spec fn update_baselines_spec(s: PlacementState, f: PlacedFragment) -> PlacementState {
    match f {
        PlacedFragment::Box(b) => if s.is_inline_block_context && b.is_table_wrapper {
            s
        } else {
            let offset = b.content_block_start;
            let first = match (s.inflow_baselines.first, b.baselines.first) {
                (None, Some(first)) => Some(add_au(first, offset)),
                _ => s.inflow_baselines.first,
            };
            let last = match b.baselines.last {
                Some(last) => Some(add_au(last, offset)),
                None => s.inflow_baselines.last,
            };
            PlacementState { inflow_baselines: Baselines { first, last }, ..s }
        },
        _ => s,
    }
}

/// The block size of the content, the margins that collapse with the parent, and the
/// baselines, once all children are placed.
pub open spec fn finish_spec(s: PlacementState) -> (Au, CollapsedBlockMargins, Baselines) {
    let s1 = if !s.last_in_flow_margin_collapses_with_parent_end_margin {
        PlacementState {
            current_block_direction_position: add_au(
                s.current_block_direction_position,
                s.current_margin.solve_spec(),
            ),
            current_margin: zero_margin(),
            ..s
        }
    } else {
        s
    };
    let (total_block_size, collapsed_through) = match s1.marker_block_size {
        Some(marker_block_size) => (max_au(s1.current_block_direction_position, marker_block_size), false),
        None => (
            s1.current_block_direction_position,
            s1.next_in_flow_margin_collapses_with_parent_start_margin,
        ),
    };
    (
        total_block_size,
        CollapsedBlockMargins { collapsed_through, start: s1.start_margin, end: s1.current_margin },
        s1.inflow_baselines,
    )
}

impl PlacementState {
    /// All lengths are valid and all margins are valid collapsed margins.
    pub open spec fn is_valid(self) -> bool {
        &&& self.start_margin.is_valid()
        &&& self.current_margin.is_valid()
        &&& self.current_block_direction_position.is_valid()
        &&& self.inflow_baselines.is_valid()
        &&& (self.marker_block_size matches Some(m) ==> m.is_valid())
    }

    /// The state before any child is placed.
    pub fn new(collapsible_with_parent_start_margin: bool, is_inline_block_context: bool) -> (r: PlacementState)
        ensures
            r.is_valid(),
            r == (PlacementState {
                next_in_flow_margin_collapses_with_parent_start_margin: collapsible_with_parent_start_margin,
                last_in_flow_margin_collapses_with_parent_end_margin: true,
                start_margin: zero_margin(),
                current_margin: zero_margin(),
                current_block_direction_position: Au(0),
                inflow_baselines: Baselines { first: None, last: None },
                is_inline_block_context,
                marker_block_size: None,
            }),
    {
        PlacementState {
            next_in_flow_margin_collapses_with_parent_start_margin: collapsible_with_parent_start_margin,
            last_in_flow_margin_collapses_with_parent_end_margin: true,
            start_margin: CollapsedMargin::zero(),
            current_margin: CollapsedMargin::zero(),
            current_block_direction_position: Au::zero(),
            inflow_baselines: Baselines { first: None, last: None },
            is_inline_block_context,
            marker_block_size: None,
        }
    }

    fn place_box(&mut self, f: &mut BoxFragmentInfo)
        requires
            old(self).is_valid(),
            old(f).is_valid(),
            !old(f).is_outside_marker,
        ensures
            (*final(self), *final(f)) == place_box_spec(*old(self), *old(f)),
            final(self).is_valid(),
            final(f).is_valid(),
    {
        let m = f.block_margins;
        let mut fragment_block_size = f.border_block_size;
        if let Some(clearance) = f.clearance {
            proof {
                lemma_plus_valid(fragment_block_size, clearance);
                lemma_plus_valid(self.current_block_direction_position, self.current_margin.solve_spec());
            }
            fragment_block_size = fragment_block_size.plus(clearance);
            self.current_block_direction_position =
                self.current_block_direction_position.plus(self.current_margin.solve());
            self.current_margin = CollapsedMargin::zero();
            self.next_in_flow_margin_collapses_with_parent_start_margin = false;
            if m.collapsed_through {
                self.last_in_flow_margin_collapses_with_parent_end_margin = false;
            }
        } else if !m.collapsed_through {
            self.last_in_flow_margin_collapses_with_parent_end_margin = true;
        }
        if self.next_in_flow_margin_collapses_with_parent_start_margin {
            proof {
                lemma_adjoin_valid(self.start_margin, m.start);
            }
            self.start_margin.adjoin_assign(&m.start);
            if m.collapsed_through {
                proof {
                    lemma_adjoin_valid(self.start_margin, m.end);
                }
                self.start_margin.adjoin_assign(&m.end);
                return;
            }
            self.next_in_flow_margin_collapses_with_parent_start_margin = false;
        } else {
            proof {
                lemma_adjoin_valid(self.current_margin, m.start);
            }
            self.current_margin.adjoin_assign(&m.start);
        }
        let current = self.current_margin.solve();
        proof {
            lemma_plus_valid(current, self.current_block_direction_position);
        }
        let offset = current.plus(self.current_block_direction_position);
        proof {
            lemma_plus_valid(f.content_block_start, offset);
        }
        f.content_block_start = f.content_block_start.plus(offset);
        if m.collapsed_through {
            proof {
                lemma_plus_valid(self.current_block_direction_position, fragment_block_size);
                lemma_adjoin_valid(self.current_margin, m.end);
            }
            self.current_block_direction_position =
                self.current_block_direction_position.plus(fragment_block_size);
            self.current_margin.adjoin_assign(&m.end);
        } else {
            proof {
                lemma_plus_valid(current, fragment_block_size);
            }
            let advance = current.plus(fragment_block_size);
            proof {
                lemma_plus_valid(self.current_block_direction_position, advance);
            }
            self.current_block_direction_position = self.current_block_direction_position.plus(advance);
            self.current_margin = m.end;
        }
    }

    /// Place a single fragment in a block level context using the state so far and
    /// information gathered from the fragment itself. A box fragment is moved in the block
    /// axis, an absolutely positioned one gets its static position, and a float is handed back
    /// with where it is to be placed among the floats.
    ///
    /// A second outside marker, and a float outside of sequential layout, are not accepted.
    pub fn place_fragment(&mut self, fragment: &mut PlacedFragment, sequential_layout: bool) -> (r: Option<FloatPlacement>)
        requires
            old(self).is_valid(),
            old(fragment).is_valid(),
            *old(fragment) matches PlacedFragment::Box(b) && b.is_outside_marker ==> old(self).marker_block_size is None,
            *old(fragment) is Float ==> sequential_layout,
        ensures
            (*final(self), *final(fragment), r) == place_fragment_spec(*old(self), *old(fragment)),
            final(self).is_valid(),
            final(fragment).is_valid(),
    {
        match fragment {
            PlacedFragment::Box(b) => {
                if b.is_outside_marker {
                    self.marker_block_size = Some(b.content_block_size);
                    return None;
                }
                self.place_box(b);
                None
            },
            PlacedFragment::AbsoluteOrFixedPositioned { static_position_block } => {
                let current = self.current_margin.solve();
                proof {
                    lemma_plus_valid(current, self.current_block_direction_position);
                }
                *static_position_block = current.plus(self.current_block_direction_position);
                None
            },
            PlacedFragment::Float => {
                let current = self.current_margin.solve();
                proof {
                    lemma_plus_valid(self.current_block_direction_position, current);
                }
                Some(
                    FloatPlacement {
                        start_margin: self.start_margin,
                        block_offset_from_containing_block_top: self.current_block_direction_position.plus(current),
                    },
                )
            },
            PlacedFragment::Positioning => None,
        }
    }

    /// Places a fragment, then takes its baselines into the container's: the first baseline
    /// of the first box that has one and the last baseline of the last box that has one, in the
    /// coordinates of the container.
    pub fn place_fragment_and_update_baseline(&mut self, fragment: &mut PlacedFragment, sequential_layout: bool) -> (r: Option<FloatPlacement>)
        requires
            old(self).is_valid(),
            old(fragment).is_valid(),
            *old(fragment) matches PlacedFragment::Box(b) && b.is_outside_marker ==> old(self).marker_block_size is None,
            *old(fragment) is Float ==> sequential_layout,
        ensures
            ({
                let (s1, f1, p) = place_fragment_spec(*old(self), *old(fragment));
                &&& *final(self) == update_baselines_spec(s1, f1)
                &&& *final(fragment) == f1
                &&& r == p
            }),
            final(self).is_valid(),
            final(fragment).is_valid(),
    {
        let r = self.place_fragment(fragment, sequential_layout);
        match fragment {
            PlacedFragment::Box(b) => {
                if self.is_inline_block_context && b.is_table_wrapper {
                    return r;
                }
                let offset = b.content_block_start;
                if let (None, Some(first)) = (self.inflow_baselines.first, b.baselines.first) {
                    proof {
                        lemma_plus_valid(first, offset);
                    }
                    self.inflow_baselines.first = Some(first.plus(offset));
                }
                if let Some(last) = b.baselines.last {
                    proof {
                        lemma_plus_valid(last, offset);
                    }
                    self.inflow_baselines.last = Some(last.plus(offset));
                }
                r
            },
            _ => r,
        }
    }

    /// The block size of the content, the margins that collapse with the parent, and the
    /// baselines, once all children are placed.
    pub fn finish(self) -> (r: (Au, CollapsedBlockMargins, Baselines))
        requires
            self.is_valid(),
        ensures
            r == finish_spec(self),
            r.0.is_valid(),
            r.1.is_valid(),
    {
        let mut s = self;
        if !s.last_in_flow_margin_collapses_with_parent_end_margin {
            let current = s.current_margin.solve();
            proof {
                lemma_plus_valid(s.current_block_direction_position, current);
            }
            s.current_block_direction_position = s.current_block_direction_position.plus(current);
            s.current_margin = CollapsedMargin::zero();
        }
        let (total_block_size, collapsed_through) = match s.marker_block_size {
            Some(marker_block_size) => (s.current_block_direction_position.max(marker_block_size), false),
            None => (
                s.current_block_direction_position,
                s.next_in_flow_margin_collapses_with_parent_start_margin,
            ),
        };
        (
            total_block_size,
            CollapsedBlockMargins { collapsed_through, start: s.start_margin, end: s.current_margin },
            s.inflow_baselines,
        )
    }
}

/// The min-content and max-content inline sizes of a box.
#[derive(Clone, Copy, Debug, PartialEq, Eq, Structural, Default)]
pub struct ContentSizes {
    pub min_content: Au,
    pub max_content: Au,
}

/// The larger of two content sizes, in each component.
pub open spec fn sizes_max_spec(a: ContentSizes, b: ContentSizes) -> ContentSizes {
    ContentSizes {
        min_content: max_au(a.min_content, b.min_content),
        max_content: max_au(a.max_content, b.max_content),
    }
}

/// The content sizes of two boxes placed side by side: the larger min-content size and the
/// sum of the max-content sizes.
pub open spec fn sizes_union_spec(a: ContentSizes, b: ContentSizes) -> ContentSizes {
    ContentSizes {
        min_content: max_au(a.min_content, b.min_content),
        max_content: add_au(a.max_content, b.max_content),
    }
}

pub open spec fn zero_sizes() -> ContentSizes {
    ContentSizes { min_content: Au(0), max_content: Au(0) }
}

impl ContentSizes {
    pub open spec fn is_valid(self) -> bool {
        self.min_content.is_valid() && self.max_content.is_valid()
    }

    /// Both sizes are valid and non-negative.
    pub open spec fn is_non_negative(self) -> bool {
        &&& 0 <= self.min_content.0 <= MAX_AU_VALUE
        &&& 0 <= self.max_content.0 <= MAX_AU_VALUE
    }

    /// Zero sizes.
    pub fn zero() -> (r: ContentSizes)
        ensures
            r == zero_sizes(),
    {
        ContentSizes { min_content: Au::zero(), max_content: Au::zero() }
    }

    /// The larger of the two, in each component.
    pub fn max(&self, other: ContentSizes) -> (r: ContentSizes)
        ensures
            r == sizes_max_spec(*self, other),
    {
        ContentSizes {
            min_content: self.min_content.max(other.min_content),
            max_content: self.max_content.max(other.max_content),
        }
    }

    /// The sizes of this box and another one side by side.
    pub fn union(&self, other: &ContentSizes) -> (r: ContentSizes)
        requires
            self.is_valid(),
            other.is_valid(),
        ensures
            r == sizes_union_spec(*self, *other),
            r.is_valid(),
    {
        proof {
            lemma_plus_valid(self.max_content, other.max_content);
        }
        ContentSizes {
            min_content: self.min_content.max(other.min_content),
            max_content: self.max_content.plus(other.max_content),
        }
    }
}

/// The inline content sizes of a box, and whether they depend on its block size.
#[derive(Clone, Copy, Debug, PartialEq, Eq, Structural)]
pub struct InlineContentSizesResult {
    pub sizes: ContentSizes,
    pub depends_on_block_constraints: bool,
}

/// The side on which a box floats.
#[derive(Clone, Copy, Debug, PartialEq, Eq, Structural)]
pub enum FloatSide {
    InlineStart,
    InlineEnd,
}

/// The sides whose floats a box clears.
#[derive(Clone, Copy, Debug, PartialEq, Eq, Structural)]
pub enum Clear {
    /// No side is cleared.
    Neither,
    InlineStart,
    InlineEnd,
    Both,
}

/// What the inline content sizes of a block container read of one of its block-level boxes:
/// the outer inline content sizes of the box, and how it floats and clears.
#[derive(Clone, Copy, Debug, PartialEq, Eq, Structural)]
pub enum BlockLevelBoxSizing {
    OutOfFlowAbsolutelyPositionedBox,
    OutsideMarker,
    OutOfFlowFloatBox { sizes: InlineContentSizesResult, side: Option<FloatSide>, clear: Clear },
    SameFormattingContextBlock { sizes: InlineContentSizesResult },
    Independent { sizes: InlineContentSizesResult, clear: Clear },
}

/// The contribution of a block-level box to the inline content sizes of its container.
pub open spec fn box_info_spec(b: BlockLevelBoxSizing) -> Option<(InlineContentSizesResult, Option<FloatSide>, Clear)> {
    match b {
        BlockLevelBoxSizing::OutOfFlowAbsolutelyPositionedBox => None,
        BlockLevelBoxSizing::OutsideMarker => None,
        BlockLevelBoxSizing::OutOfFlowFloatBox { sizes, side, clear } => Some((sizes, side, clear)),
        // A block in the same formatting context can overlap floats: it is not moved next to
        // them, so it is treated like an independent block with 'clear: both'.
        BlockLevelBoxSizing::SameFormattingContextBlock { sizes } => Some((sizes, None, Clear::Both)),
        BlockLevelBoxSizing::Independent { sizes, clear } => Some((sizes, None, clear)),
    }
}

impl BlockLevelBoxSizing {
    pub open spec fn is_valid(self) -> bool {
        match box_info_spec(self) {
            Some((r, _, _)) => r.sizes.is_valid(),
            None => true,
        }
    }

    /// The contribution of this box to the inline content sizes of its container, if any.
    pub fn box_info(&self) -> (r: Option<(InlineContentSizesResult, Option<FloatSide>, Clear)>)
        ensures
            r == box_info_spec(*self),
    {
        match self {
            BlockLevelBoxSizing::OutOfFlowAbsolutelyPositionedBox => None,
            BlockLevelBoxSizing::OutsideMarker => None,
            BlockLevelBoxSizing::OutOfFlowFloatBox { sizes, side, clear } => Some((*sizes, *side, *clear)),
            BlockLevelBoxSizing::SameFormattingContextBlock { sizes } => Some((*sizes, None, Clear::Both)),
            BlockLevelBoxSizing::Independent { sizes, clear } => Some((*sizes, None, *clear)),
        }
    }
}

/// When iterating the block-level boxes to compute the inline content sizes, the data
/// accumulated up to the current box.
#[derive(Clone, Copy, Debug, PartialEq, Eq, Structural)]
pub struct AccumulatedData {
    /// Whether the inline size depends on the block one.
    pub depends_on_block_constraints: bool,
    /// The maximum size seen so far, not including trailing uncleared floats.
    pub max_size: ContentSizes,
    /// The size of the trailing uncleared floats on the inline-start side.
    pub start_floats: ContentSizes,
    /// The size of the trailing uncleared floats on the inline-end side.
    pub end_floats: ContentSizes,
}

pub open spec fn initial_data() -> AccumulatedData {
    AccumulatedData {
        depends_on_block_constraints: false,
        max_size: zero_sizes(),
        start_floats: zero_sizes(),
        end_floats: zero_sizes(),
    }
}

/// The largest size so far, counting the trailing uncleared floats side by side.
pub open spec fn including_uncleared_floats_spec(d: AccumulatedData) -> ContentSizes {
    sizes_max_spec(d.max_size, sizes_union_spec(d.start_floats, d.end_floats))
}

/// The data after a box clears the floats on the given sides.
pub open spec fn clear_floats_spec(d: AccumulatedData, clear: Clear) -> AccumulatedData {
    match clear {
        Clear::InlineStart => AccumulatedData {
            max_size: including_uncleared_floats_spec(d),
            start_floats: zero_sizes(),
            ..d
        },
        Clear::InlineEnd => AccumulatedData {
            max_size: including_uncleared_floats_spec(d),
            end_floats: zero_sizes(),
            ..d
        },
        Clear::Both => AccumulatedData {
            max_size: including_uncleared_floats_spec(d),
            start_floats: zero_sizes(),
            end_floats: zero_sizes(),
            ..d
        },
        Clear::Neither => d,
    }
}

/// The data after one more box: its sizes (at least zero) go beside the floats on its side if
/// it floats, and below everything else otherwise.
pub open spec fn accumulate_spec(d: AccumulatedData, item: (InlineContentSizesResult, Option<FloatSide>, Clear)) -> AccumulatedData {
    let (result, float, clear) = item;
    let size = sizes_max_spec(result.sizes, zero_sizes());
    let d1 = clear_floats_spec(
        AccumulatedData {
            depends_on_block_constraints: d.depends_on_block_constraints || result.depends_on_block_constraints,
            ..d
        },
        clear,
    );
    match float {
        Some(FloatSide::InlineStart) => AccumulatedData { start_floats: sizes_union_spec(d1.start_floats, size), ..d1 },
        Some(FloatSide::InlineEnd) => AccumulatedData { end_floats: sizes_union_spec(d1.end_floats, size), ..d1 },
        None => AccumulatedData {
            max_size: sizes_max_spec(d1.max_size, sizes_union_spec(sizes_union_spec(d1.start_floats, d1.end_floats), size)),
            start_floats: zero_sizes(),
            end_floats: zero_sizes(),
            ..d1
        },
    }
}

/// The data accumulated over a sequence of block-level boxes.
pub open spec fn accumulate_all_spec(boxes: Seq<BlockLevelBoxSizing>) -> AccumulatedData
    decreases boxes.len(),
{
    if boxes.len() == 0 {
        initial_data()
    } else {
        let d = accumulate_all_spec(boxes.drop_last());
        match box_info_spec(boxes.last()) {
            Some(item) => accumulate_spec(d, item),
            None => d,
        }
    }
}

/// The inline content sizes of a block container whose children are the given boxes.
pub open spec fn block_level_boxes_inline_content_sizes_spec(boxes: Seq<BlockLevelBoxSizing>) -> InlineContentSizesResult {
    let d = accumulate_all_spec(boxes);
    InlineContentSizesResult {
        depends_on_block_constraints: d.depends_on_block_constraints,
        sizes: including_uncleared_floats_spec(d),
    }
}

/// Clearing floats empties exactly the sides that are cleared and leaves the other side as it
/// was; whatever is cleared still counts toward the largest size seen so far, with the floats
/// of both sides side by side.
pub proof fn lemma_clear_floats_sides(d: AccumulatedData, clear: Clear)
    ensures
        ({
            let r = clear_floats_spec(d, clear);
            &&& r.depends_on_block_constraints == d.depends_on_block_constraints
            &&& r.start_floats == if clear is InlineStart || clear is Both { zero_sizes() } else { d.start_floats }
            &&& r.end_floats == if clear is InlineEnd || clear is Both { zero_sizes() } else { d.end_floats }
            &&& r.max_size == if clear is Neither {
                d.max_size
            } else {
                sizes_max_spec(d.max_size, sizes_union_spec(d.start_floats, d.end_floats))
            }
        }),
{
}

/// A box that does not float and clears the floats of one side sits below those floats and
/// beside the floats of the other side only: the largest size afterwards counts it side by
/// side with the uncleared floats, and no float is left beside what comes next.
pub proof fn lemma_cleared_box_sits_below_cleared_floats(
    d: AccumulatedData,
    result: InlineContentSizesResult,
    clear: Clear,
)
    requires
        d.is_valid(),
        result.sizes.is_non_negative(),
        clear is InlineStart || clear is InlineEnd,
    ensures
        ({
            let r = accumulate_spec(d, (result, None, clear));
            let beside = if clear is InlineStart { d.end_floats } else { d.start_floats };
            &&& r.max_size == sizes_max_spec(
                sizes_max_spec(d.max_size, sizes_union_spec(d.start_floats, d.end_floats)),
                sizes_union_spec(beside, result.sizes),
            )
            &&& r.start_floats == zero_sizes()
            &&& r.end_floats == zero_sizes()
        }),
{
    assert(sizes_max_spec(result.sizes, zero_sizes()) == result.sizes);
    assert(sizes_union_spec(zero_sizes(), d.end_floats) == d.end_floats);
    assert(sizes_union_spec(d.start_floats, zero_sizes()) == d.start_floats);
}

/// A box that does not float and clears the inline-start side, after an inline-start float,
/// is placed below the float: the container's sizes are the larger of the two boxes' sizes,
/// not their sum.
pub proof fn lemma_box_clearing_a_float_goes_below_it(
    float_sizes: InlineContentSizesResult,
    box_sizes: InlineContentSizesResult,
)
    requires
        float_sizes.sizes.is_non_negative(),
        box_sizes.sizes.is_non_negative(),
    ensures
        ({
            let boxes = seq![
                BlockLevelBoxSizing::OutOfFlowFloatBox {
                    sizes: float_sizes,
                    side: Some(FloatSide::InlineStart),
                    clear: Clear::Neither,
                },
                BlockLevelBoxSizing::Independent { sizes: box_sizes, clear: Clear::InlineStart },
            ];
            let r = block_level_boxes_inline_content_sizes_spec(boxes);
            &&& r.sizes.max_content == max_au(float_sizes.sizes.max_content, box_sizes.sizes.max_content)
            &&& r.sizes.min_content == max_au(float_sizes.sizes.min_content, box_sizes.sizes.min_content)
        }),
{
    let boxes = seq![
        BlockLevelBoxSizing::OutOfFlowFloatBox {
            sizes: float_sizes,
            side: Some(FloatSide::InlineStart),
            clear: Clear::Neither,
        },
        BlockLevelBoxSizing::Independent { sizes: box_sizes, clear: Clear::InlineStart },
    ];
    let first = boxes.drop_last();
    assert(first.drop_last().len() == 0);
    assert(first.last() == boxes[0]);
    assert(boxes.last() == boxes[1]);
    let d0 = initial_data();
    assert(accumulate_all_spec(first.drop_last()) == d0);
    assert(box_info_spec(first.last()) == Some((float_sizes, Some(FloatSide::InlineStart), Clear::Neither)));
    let d1 = accumulate_all_spec(first);
    assert(d1 == accumulate_spec(d0, (float_sizes, Some(FloatSide::InlineStart), Clear::Neither)));
    assert(sizes_max_spec(float_sizes.sizes, zero_sizes()) == float_sizes.sizes);
    assert(sizes_union_spec(zero_sizes(), float_sizes.sizes) == float_sizes.sizes);
    assert(d1.start_floats == float_sizes.sizes);
    assert(d1.is_valid());
    lemma_cleared_box_sits_below_cleared_floats(d1, box_sizes, Clear::InlineStart);
    assert(sizes_union_spec(zero_sizes(), box_sizes.sizes) == box_sizes.sizes);
    assert(sizes_union_spec(float_sizes.sizes, zero_sizes()) == float_sizes.sizes);
}

impl AccumulatedData {
    /// All sizes are valid and non-negative.
    pub open spec fn is_valid(self) -> bool {
        &&& self.max_size.is_non_negative()
        &&& self.start_floats.is_non_negative()
        &&& self.end_floats.is_non_negative()
    }

    /// No box seen yet.
    pub fn new() -> (r: AccumulatedData)
        ensures
            r == initial_data(),
            r.is_valid(),
    {
        AccumulatedData {
            depends_on_block_constraints: false,
            max_size: ContentSizes::zero(),
            start_floats: ContentSizes::zero(),
            end_floats: ContentSizes::zero(),
        }
    }

    /// The largest size so far, counting the trailing uncleared floats side by side.
    pub fn max_size_including_uncleared_floats(&self) -> (r: ContentSizes)
        requires
            self.is_valid(),
        ensures
            r == including_uncleared_floats_spec(*self),
            r.is_non_negative(),
    {
        self.max_size.max(self.start_floats.union(&self.end_floats))
    }

    /// Clears the floats on the given sides.
    pub fn clear_floats(&mut self, clear: Clear)
        requires
            old(self).is_valid(),
        ensures
            *final(self) == clear_floats_spec(*old(self), clear),
            final(self).is_valid(),
    {
        match clear {
            Clear::InlineStart => {
                self.max_size = self.max_size_including_uncleared_floats();
                self.start_floats = ContentSizes::zero();
            },
            Clear::InlineEnd => {
                self.max_size = self.max_size_including_uncleared_floats();
                self.end_floats = ContentSizes::zero();
            },
            Clear::Both => {
                self.max_size = self.max_size_including_uncleared_floats();
                self.start_floats = ContentSizes::zero();
                self.end_floats = ContentSizes::zero();
            },
            Clear::Neither => {},
        }
    }

    /// Takes one more box into account.
    pub fn accumulate(self, item: (InlineContentSizesResult, Option<FloatSide>, Clear)) -> (r: AccumulatedData)
        requires
            self.is_valid(),
            item.0.sizes.is_valid(),
        ensures
            r == accumulate_spec(self, item),
            r.is_valid(),
    {
        let mut data = self;
        let (inline_content_sizes_result, float, clear) = item;
        let size = inline_content_sizes_result.sizes.max(ContentSizes::zero());
        data.depends_on_block_constraints = data.depends_on_block_constraints
            || inline_content_sizes_result.depends_on_block_constraints;
        data.clear_floats(clear);
        match float {
            Some(FloatSide::InlineStart) => data.start_floats = data.start_floats.union(&size),
            Some(FloatSide::InlineEnd) => data.end_floats = data.end_floats.union(&size),
            None => {
                let floats = data.start_floats.union(&data.end_floats);
                data.max_size = data.max_size.max(floats.union(&size));
                data.start_floats = ContentSizes::zero();
                data.end_floats = ContentSizes::zero();
            },
        }
        data
    }
}

/// Finds the min/max-content inline size of the block-level children of a block container.
/// The in-flow boxes stack vertically, so only the maximum size matters; floats can flow
/// horizontally depending on 'clear', so their sizes may be summed.
pub fn compute_inline_content_sizes_for_block_level_boxes(boxes: &Vec<BlockLevelBoxSizing>) -> (r: InlineContentSizesResult)
    requires
        forall|i: int| 0 <= i < boxes.len() ==> #[trigger] boxes@[i].is_valid(),
    ensures
        r == block_level_boxes_inline_content_sizes_spec(boxes@),
{
    let mut data = AccumulatedData::new();
    let mut i: usize = 0;
    while i < boxes.len()
        invariant
            i <= boxes.len(),
            forall|j: int| 0 <= j < boxes.len() ==> #[trigger] boxes@[j].is_valid(),
            data.is_valid(),
            data == accumulate_all_spec(boxes@.take(i as int)),
        decreases boxes.len() - i,
    {
        assert(boxes@.take(i as int + 1).drop_last() =~= boxes@.take(i as int));
        assert(boxes@[i as int].is_valid());
        match boxes[i].box_info() {
            Some(item) => {
                data = data.accumulate(item);
            },
            None => {},
        }
        i = i + 1;
    }
    assert(boxes@.take(boxes.len() as int) =~= boxes@);
    InlineContentSizesResult {
        depends_on_block_constraints: data.depends_on_block_constraints,
        sizes: data.max_size_including_uncleared_floats(),
    }
}

/// Each component of `a` is at most that of `b`.
pub open spec fn sizes_le(a: ContentSizes, b: ContentSizes) -> bool {
    a.min_content.0 <= b.min_content.0 && a.max_content.0 <= b.max_content.0
}

proof fn lemma_accumulate_valid(d: AccumulatedData, item: (InlineContentSizesResult, Option<FloatSide>, Clear))
    requires
        d.is_valid(),
        item.0.sizes.is_valid(),
    ensures
        accumulate_spec(d, item).is_valid(),
        sizes_le(including_uncleared_floats_spec(d), including_uncleared_floats_spec(accumulate_spec(d, item))),
        sizes_le(sizes_max_spec(item.0.sizes, zero_sizes()), including_uncleared_floats_spec(accumulate_spec(d, item))),
{
    let (result, float, clear) = item;
    let size = sizes_max_spec(result.sizes, zero_sizes());
    let d0 = AccumulatedData {
        depends_on_block_constraints: d.depends_on_block_constraints || result.depends_on_block_constraints,
        ..d
    };
    let d1 = clear_floats_spec(d0, clear);
    assert(d1.is_valid());
    assert(sizes_le(including_uncleared_floats_spec(d), including_uncleared_floats_spec(d1)));
}

proof fn lemma_accumulate_all_valid(boxes: Seq<BlockLevelBoxSizing>)
    requires
        forall|i: int| 0 <= i < boxes.len() ==> #[trigger] boxes[i].is_valid(),
    ensures
        accumulate_all_spec(boxes).is_valid(),
    decreases boxes.len(),
{
    if boxes.len() > 0 {
        let rest = boxes.drop_last();
        assert forall|i: int| 0 <= i < rest.len() implies #[trigger] rest[i].is_valid() by {
            assert(rest[i] == boxes[i]);
        }
        lemma_accumulate_all_valid(rest);
        assert(boxes.last().is_valid());
        match box_info_spec(boxes.last()) {
            Some(item) => lemma_accumulate_valid(accumulate_all_spec(rest), item),
            None => {},
        }
    }
}

/// The inline content sizes of a block container are at least those of each of its in-flow
/// and floating children (taken as zero where negative): no child overflows the container's
/// min-content or max-content size.
pub proof fn lemma_inline_content_sizes_cover_each_box(boxes: Seq<BlockLevelBoxSizing>, i: int)
    requires
        forall|j: int| 0 <= j < boxes.len() ==> #[trigger] boxes[j].is_valid(),
        0 <= i < boxes.len(),
        box_info_spec(boxes[i]) is Some,
    ensures
        sizes_le(
            sizes_max_spec(box_info_spec(boxes[i]).unwrap().0.sizes, zero_sizes()),
            block_level_boxes_inline_content_sizes_spec(boxes).sizes,
        ),
    decreases boxes.len(),
{
    let rest = boxes.drop_last();
    assert forall|j: int| 0 <= j < rest.len() implies #[trigger] rest[j].is_valid() by {
        assert(rest[j] == boxes[j]);
    }
    lemma_accumulate_all_valid(rest);
    let d = accumulate_all_spec(rest);
    assert(boxes.last().is_valid());
    if i == boxes.len() - 1 {
        lemma_accumulate_valid(d, box_info_spec(boxes[i]).unwrap());
    } else {
        assert(rest[i] == boxes[i]);
        lemma_inline_content_sizes_cover_each_box(rest, i);
        match box_info_spec(boxes.last()) {
            Some(item) => lemma_accumulate_valid(d, item),
            None => {},
        }
    }
}

/// The value part of an alignment (`justify-self`, `justify-items`).
#[derive(Clone, Copy, Debug, PartialEq, Eq, Structural)]
pub enum AlignKeyword {
    Auto,
    Normal,
    Start,
    End,
    FlexStart,
    FlexEnd,
    Center,
    Left,
    Right,
    Baseline,
    LastBaseline,
    Stretch,
    SelfStart,
    SelfEnd,
    SpaceBetween,
    SpaceAround,
    SpaceEvenly,
    AnchorCenter,
}

/// The flag part of an alignment.
#[derive(Clone, Copy, Debug, PartialEq, Eq, Structural)]
pub enum AlignModifier {
    Plain,
    Legacy,
    Safe,
    Unsafe,
}

/// An alignment: a value and its flag.
#[derive(Clone, Copy, Debug, PartialEq, Eq, Structural)]
pub struct AlignFlags {
    pub value: AlignKeyword,
    pub modifier: AlignModifier,
}

/// The values of `text-align` that block layout distinguishes.
#[derive(Clone, Copy, Debug, PartialEq, Eq, Structural)]
pub enum TextAlignKeyword {
    Start,
    Left,
    Right,
    Center,
    Justify,
    End,
    MozCenter,
    MozLeft,
    MozRight,
}

/// What block layout reads of the style of a containing block.
#[derive(Clone, Copy, Debug, PartialEq, Eq, Structural)]
pub struct ContainingBlockStyle {
    pub text_align: TextAlignKeyword,
    /// The line-left side is the inline-start side (left-to-right in horizontal writing).
    pub line_left_is_inline_start: bool,
}

/// What block layout reads of a containing block: its inline size, whether its block size is
/// definite, and its style.
#[derive(Clone, Copy, Debug, PartialEq, Eq, Structural)]
pub struct ContainingBlock {
    pub inline_size: Au,
    pub block_size_is_definite: bool,
    pub style: ContainingBlockStyle,
}

/// The offset of a block-level box in its free space, according to `justify-self`.
pub open spec fn justify_self_alignment_spec(style: ContainingBlockStyle, free_space: Au, justify_self: AlignFlags) -> Au {
    let is_safe = justify_self.modifier == AlignModifier::Safe || justify_self.value == AlignKeyword::Normal;
    let alignment = if is_safe && free_space.0 <= 0 { AlignKeyword::Start } else { justify_self.value };
    match alignment {
        AlignKeyword::Center => half_au(free_space),
        AlignKeyword::End => free_space,
        // For `justify-self: normal`, fall back to the special 'text-align' values.
        AlignKeyword::Normal => match style.text_align {
            TextAlignKeyword::MozCenter => half_au(free_space),
            TextAlignKeyword::MozLeft => if !style.line_left_is_inline_start { free_space } else { Au(0) },
            TextAlignKeyword::MozRight => if style.line_left_is_inline_start { free_space } else { Au(0) },
            _ => Au(0),
        },
        _ => Au(0),
    }
}

/// Justifies a block-level box, distributing the free space according to `justify-self`.
/// `<center>` and `<div align>` are implemented via internal 'text-align' values, which are
/// also handled here. The free space should already take margins into account; in
/// particular, it should be zero if there is an auto margin.
pub fn justify_self_alignment(containing_block: &ContainingBlock, free_space: Au, justify_self: AlignFlags) -> (r: Au)
    ensures
        r == justify_self_alignment_spec(containing_block.style, free_space, justify_self),
{
    let mut alignment = justify_self.value;
    let is_safe = justify_self.modifier == AlignModifier::Safe || alignment == AlignKeyword::Normal;
    if is_safe && free_space.0 <= 0 {
        alignment = AlignKeyword::Start;
    }
    match alignment {
        AlignKeyword::Normal => {},
        AlignKeyword::Center => return free_space.half(),
        AlignKeyword::End => return free_space,
        _ => return Au::zero(),
    }
    let style = containing_block.style;
    match style.text_align {
        TextAlignKeyword::MozCenter => free_space.half(),
        TextAlignKeyword::MozLeft if !style.line_left_is_inline_start => free_space,
        TextAlignKeyword::MozRight if style.line_left_is_inline_start => free_space,
        _ => Au::zero(),
    }
}

/// The used inline margins and the effective inline-start margin of an in-flow block-level box.
pub open spec fn solve_inline_margins_spec(
    cb: ContainingBlock,
    pbm: PaddingBorderMargin,
    inline_size: Au,
    justify_self: AlignFlags,
) -> ((Au, Au), Au) {
    let free_space = sub_au(sub_au(cb.inline_size, pbm.padding_border_sums.inline), inline_size);
    let (inline_margins, justification) = match (pbm.margin.inline_start, pbm.margin.inline_end) {
        (AuOrAuto::Auto, AuOrAuto::Auto) => {
            let start = max_au(Au(0), half_au(free_space));
            ((start, sub_au(free_space, start)), Au(0))
        },
        (AuOrAuto::Auto, AuOrAuto::LengthPercentage(end)) => ((max_au(Au(0), sub_au(free_space, end)), end), Au(0)),
        (AuOrAuto::LengthPercentage(start), AuOrAuto::Auto) => ((start, sub_au(free_space, start)), Au(0)),
        (AuOrAuto::LengthPercentage(start), AuOrAuto::LengthPercentage(end)) => (
            (start, end),
            justify_self_alignment_spec(cb.style, sub_au(sub_au(free_space, start), end), justify_self),
        ),
    };
    (inline_margins, add_au(inline_margins.0, justification))
}

/// Resolves 'auto' margins of an in-flow block-level box in the inline axis, distributing the
/// free space in the containing block (CSS 2 § 10.3.3, without adjusting the margins in
/// over-constrained cases). Returns the used margins and the effective inline-start margin,
/// which also includes the offset from `justify-self`.
pub fn solve_inline_margins_for_in_flow_block_level(
    containing_block: &ContainingBlock,
    pbm: &PaddingBorderMargin,
    inline_size: Au,
    justify_self: AlignFlags,
) -> (r: ((Au, Au), Au))
    requires
        containing_block.inline_size.is_valid(),
        pbm.is_valid(),
        inline_size.is_valid(),
    ensures
        r == solve_inline_margins_spec(*containing_block, *pbm, inline_size, justify_self),
{
    proof {
        lemma_plus_valid(containing_block.inline_size, pbm.padding_border_sums.inline);
    }
    let available = containing_block.inline_size.minus(pbm.padding_border_sums.inline);
    proof {
        lemma_plus_valid(available, inline_size);
    }
    let free_space = available.minus(inline_size);
    let mut justification = Au::zero();
    let inline_margins = match (pbm.margin.inline_start, pbm.margin.inline_end) {
        (AuOrAuto::Auto, AuOrAuto::Auto) => {
            let start = Au::zero().max(free_space.half());
            proof {
                lemma_plus_valid(free_space, start);
            }
            (start, free_space.minus(start))
        },
        (AuOrAuto::Auto, AuOrAuto::LengthPercentage(end)) => {
            proof {
                lemma_plus_valid(free_space, end);
            }
            (Au::zero().max(free_space.minus(end)), end)
        },
        (AuOrAuto::LengthPercentage(start), AuOrAuto::Auto) => {
            proof {
                lemma_plus_valid(free_space, start);
            }
            (start, free_space.minus(start))
        },
        (AuOrAuto::LengthPercentage(start), AuOrAuto::LengthPercentage(end)) => {
            proof {
                lemma_plus_valid(free_space, start);
            }
            let after_start = free_space.minus(start);
            proof {
                lemma_plus_valid(after_start, end);
            }
            justification = justify_self_alignment(containing_block, after_start.minus(end), justify_self);
            (start, end)
        },
    };
    proof {
        lemma_plus_valid(inline_margins.0, justification);
    }
    let effective_margin_inline_start = inline_margins.0.plus(justification);
    (inline_margins, effective_margin_inline_start)
}

/// Resolves 'auto' margins of an in-flow block-level box in the block axis: 'auto' is zero.
pub fn solve_block_margins_for_in_flow_block_level(pbm: &PaddingBorderMargin) -> (r: (Au, Au))
    ensures
        r == (pbm.margin.block_start.auto_is_zero_spec(), pbm.margin.block_end.auto_is_zero_spec()),
{
    (pbm.margin.block_start.auto_is_zero(), pbm.margin.block_end.auto_is_zero())
}

/// The used margins of an in-flow box, and the distance between its border box and the
/// containing block on the inline-start side.
#[derive(Clone, Copy, Debug)]
pub struct ResolvedMargins {
    /// Used value for the margin properties.
    pub margin: LogicalSides<Au>,
    /// Distance between the border box and the containing block on the inline-start side.
    /// This is typically the same as the inline-start margin, but can be greater when the box
    /// is justified within the free space in the containing block.
    pub effective_margin_inline_start: Au,
}

/// Given the containing block and size of an in-flow box, determine the margins.
pub fn solve_margins(
    containing_block: &ContainingBlock,
    pbm: &PaddingBorderMargin,
    inline_size: Au,
    justify_self: AlignFlags,
) -> (r: ResolvedMargins)
    requires
        containing_block.inline_size.is_valid(),
        pbm.is_valid(),
        inline_size.is_valid(),
    ensures
        ({
            let ((start, end), effective) = solve_inline_margins_spec(*containing_block, *pbm, inline_size, justify_self);
            &&& r.margin.inline_start == start
            &&& r.margin.inline_end == end
            &&& r.margin.block_start == pbm.margin.block_start.auto_is_zero_spec()
            &&& r.margin.block_end == pbm.margin.block_end.auto_is_zero_spec()
            &&& r.effective_margin_inline_start == effective
        }),
{
    let (inline_margins, effective_margin_inline_start) =
        solve_inline_margins_for_in_flow_block_level(containing_block, pbm, inline_size, justify_self);
    let block_margins = solve_block_margins_for_in_flow_block_level(pbm);
    ResolvedMargins {
        margin: LogicalSides {
            inline_start: inline_margins.0,
            inline_end: inline_margins.1,
            block_start: block_margins.0,
            block_end: block_margins.1,
        },
        effective_margin_inline_start,
    }
}

/// The inline extent of the containing block of a block formatting context's floats, in the
/// coordinates of the block formatting context.
#[derive(Clone, Copy, Debug, PartialEq, Eq, Structural)]
pub struct ContainingBlockInlineExtent {
    pub inline_start: Au,
    pub inline_end: Au,
}

/// A rectangle in logical coordinates: its start corner and its size.
#[derive(Clone, Copy, Debug, PartialEq, Eq, Structural)]
pub struct LogicalRect {
    pub start_inline: Au,
    pub start_block: Au,
    pub inline_size: Au,
    pub block_size: Au,
}

/// The used inline margins and the effective inline-start margin of a box placed among floats.
pub open spec fn solve_inline_margins_avoiding_floats_spec(
    cb_info: ContainingBlockInlineExtent,
    cb: ContainingBlock,
    pbm: PaddingBorderMargin,
    inline_size: Au,
    placement_rect: LogicalRect,
    justify_self: AlignFlags,
) -> ((Au, Au), Au) {
    let free_space = max_au(Au(0), sub_au(placement_rect.inline_size, inline_size));
    let start_adjustment = sub_au(placement_rect.start_inline, cb_info.inline_start);
    let end_adjustment = sub_au(cb_info.inline_end, add_au(placement_rect.start_inline, placement_rect.inline_size));
    let (inline_margins, justification) = match (pbm.margin.inline_start, pbm.margin.inline_end) {
        (AuOrAuto::Auto, AuOrAuto::Auto) => {
            let half = half_au(free_space);
            ((add_au(start_adjustment, half), sub_au(add_au(end_adjustment, free_space), half)), Au(0))
        },
        (AuOrAuto::Auto, AuOrAuto::LengthPercentage(end)) => ((add_au(start_adjustment, free_space), end), Au(0)),
        (AuOrAuto::LengthPercentage(start), AuOrAuto::Auto) => ((start, add_au(end_adjustment, free_space)), Au(0)),
        (AuOrAuto::LengthPercentage(start), AuOrAuto::LengthPercentage(end)) => (
            (start, end),
            justify_self_alignment_spec(cb.style, free_space, justify_self),
        ),
    };
    (inline_margins, add_au(max_au(inline_margins.0, start_adjustment), justification))
}

/// Resolves 'auto' margins of an in-flow block-level box in the inline axis like
/// [`solve_inline_margins_for_in_flow_block_level`], but aligning within the rectangle where
/// the box was placed among floats instead of the containing block. The effective
/// inline-start margin may then differ from the used one.
pub fn solve_inline_margins_avoiding_floats(
    cb_info: &ContainingBlockInlineExtent,
    containing_block: &ContainingBlock,
    pbm: &PaddingBorderMargin,
    inline_size: Au,
    placement_rect: LogicalRect,
    justify_self: AlignFlags,
) -> (r: ((Au, Au), Au))
    requires
        cb_info.inline_start.is_valid(),
        cb_info.inline_end.is_valid(),
        pbm.is_valid(),
        inline_size.is_valid(),
        placement_rect.start_inline.is_valid(),
        placement_rect.inline_size.is_valid(),
    ensures
        r == solve_inline_margins_avoiding_floats_spec(
            *cb_info,
            *containing_block,
            *pbm,
            inline_size,
            placement_rect,
            justify_self,
        ),
{
    // The placement among floats should make the rectangle at least as large as the box, but
    // huge sizes saturate, so the free space is floored at zero.
    proof {
        lemma_plus_valid(placement_rect.inline_size, inline_size);
        lemma_plus_valid(placement_rect.start_inline, cb_info.inline_start);
        lemma_plus_valid(placement_rect.start_inline, placement_rect.inline_size);
    }
    let free_space = Au::zero().max(placement_rect.inline_size.minus(inline_size));
    let start_adjustment = placement_rect.start_inline.minus(cb_info.inline_start);
    let max_inline_position = placement_rect.start_inline.plus(placement_rect.inline_size);
    proof {
        lemma_plus_valid(cb_info.inline_end, max_inline_position);
    }
    let end_adjustment = cb_info.inline_end.minus(max_inline_position);
    let mut justification = Au::zero();
    proof {
        lemma_plus_valid(start_adjustment, free_space);
        lemma_plus_valid(end_adjustment, free_space);
    }
    let inline_margins = match (pbm.margin.inline_start, pbm.margin.inline_end) {
        (AuOrAuto::Auto, AuOrAuto::Auto) => {
            let half = free_space.half();
            let end_with_free_space = end_adjustment.plus(free_space);
            proof {
                lemma_plus_valid(start_adjustment, half);
                lemma_plus_valid(end_with_free_space, half);
            }
            (start_adjustment.plus(half), end_with_free_space.minus(half))
        },
        (AuOrAuto::Auto, AuOrAuto::LengthPercentage(end)) => (start_adjustment.plus(free_space), end),
        (AuOrAuto::LengthPercentage(start), AuOrAuto::Auto) => (start, end_adjustment.plus(free_space)),
        (AuOrAuto::LengthPercentage(start), AuOrAuto::LengthPercentage(end)) => {
            justification = justify_self_alignment(containing_block, free_space, justify_self);
            (start, end)
        },
    };
    let base = inline_margins.0.max(start_adjustment);
    proof {
        lemma_plus_valid(base, justification);
    }
    let effective_margin_inline_start = base.plus(justification);
    (inline_margins, effective_margin_inline_start)
}

/// What `justify-self` and `direction` a box and its parent have.
#[derive(Clone, Copy, Debug, PartialEq, Eq, Structural)]
pub struct JustifyStyle {
    /// The computed `justify-self` of the box.
    pub justify_self: AlignFlags,
    /// The computed `justify-items` of the box.
    pub justify_items: AlignFlags,
    /// The line-left side of the box is its inline-start side.
    pub line_left_is_inline_start: bool,
}

/// The `justify-self` of a box, with `auto` taken from the parent's `justify-items` and the
/// physical and self-relative values turned into `start` or `end`, keeping the flags.
pub open spec fn resolve_justify_self_spec(style: JustifyStyle, parent_style: JustifyStyle) -> AlignFlags {
    let alignment = if style.justify_self == (AlignFlags { value: AlignKeyword::Auto, modifier: AlignModifier::Plain }) {
        parent_style.justify_items
    } else {
        style.justify_self
    };
    let parent_ltr = parent_style.line_left_is_inline_start;
    let ltr = style.line_left_is_inline_start;
    let value = match alignment.value {
        AlignKeyword::Left => if parent_ltr { AlignKeyword::Start } else { AlignKeyword::End },
        AlignKeyword::Right => if parent_ltr { AlignKeyword::End } else { AlignKeyword::Start },
        AlignKeyword::SelfStart => if parent_ltr == ltr { AlignKeyword::Start } else { AlignKeyword::End },
        AlignKeyword::SelfEnd => if parent_ltr == ltr { AlignKeyword::End } else { AlignKeyword::Start },
        v => v,
    };
    AlignFlags { value, modifier: alignment.modifier }
}

/// Resolves the `justify-self` value, preserving flags.
pub fn resolve_justify_self(style: &JustifyStyle, parent_style: &JustifyStyle) -> (r: AlignFlags)
    ensures
        r == resolve_justify_self_spec(*style, *parent_style),
{
    let alignment = if style.justify_self.value == AlignKeyword::Auto
        && style.justify_self.modifier == AlignModifier::Plain {
        parent_style.justify_items
    } else {
        style.justify_self
    };
    let parent_ltr = parent_style.line_left_is_inline_start;
    let ltr = style.line_left_is_inline_start;
    let value = match alignment.value {
        AlignKeyword::Left => if parent_ltr { AlignKeyword::Start } else { AlignKeyword::End },
        AlignKeyword::Right => if parent_ltr { AlignKeyword::End } else { AlignKeyword::Start },
        AlignKeyword::SelfStart => if parent_ltr == ltr { AlignKeyword::Start } else { AlignKeyword::End },
        AlignKeyword::SelfEnd => if parent_ltr == ltr { AlignKeyword::End } else { AlignKeyword::Start },
        v => v,
    };
    AlignFlags { value, modifier: alignment.modifier }
}

/// The automatic size of a box in the inline axis.
#[derive(Clone, Copy, Debug, PartialEq, Eq, Structural)]
pub enum AutomaticSize {
    Stretch,
    FitContent,
}

/// Determines the automatic size for the inline axis of a block-level box: it stretches for
/// `justify-self: stretch`, and for `normal` unless the box is a table or replaced.
pub fn automatic_inline_size(justify_self: AlignFlags, is_table: bool, is_replaced: bool) -> (r: AutomaticSize)
    ensures
        r == (if justify_self == (AlignFlags { value: AlignKeyword::Stretch, modifier: AlignModifier::Plain }) {
            AutomaticSize::Stretch
        } else if justify_self == (AlignFlags { value: AlignKeyword::Normal, modifier: AlignModifier::Plain }) && !is_table && !is_replaced {
            AutomaticSize::Stretch
        } else {
            AutomaticSize::FitContent
        }),
{
    if justify_self.modifier != AlignModifier::Plain {
        AutomaticSize::FitContent
    } else {
        match justify_self.value {
            AlignKeyword::Stretch => AutomaticSize::Stretch,
            AlignKeyword::Normal if !is_table && !is_replaced => AutomaticSize::Stretch,
            _ => AutomaticSize::FitContent,
        }
    }
}

/// A computed block size property (`block-size` or `min-block-size`).
#[derive(Clone, Copy, Debug, PartialEq, Eq, Structural)]
pub enum StyleSize {
    Auto,
    MinContent,
    MaxContent,
    FitContent,
    FitContentFunction,
    Stretch,
    /// A length-percentage: whether it is certainly zero, and whether it has a percentage.
    LengthPercentage { is_definitely_zero: bool, has_percentage: bool },
    AnchorSizeFunction,
    AnchorContainingCalcFunction,
}

/// Whether a block size is zero or intrinsic, given whether the containing block's block size
/// is definite: a percentage of an indefinite size and `stretch` in an indefinite containing
/// block behave as intrinsic. Anchor functions are not accepted.
pub fn block_size_is_zero_or_intrinsic(size: &StyleSize, containing_block: &ContainingBlock) -> (r: bool)
    requires
        !(*size is AnchorSizeFunction),
        !(*size is AnchorContainingCalcFunction),
    ensures
        r == match *size {
            StyleSize::Stretch => !containing_block.block_size_is_definite,
            StyleSize::LengthPercentage { is_definitely_zero, has_percentage } =>
                is_definitely_zero || (has_percentage && !containing_block.block_size_is_definite),
            _ => true,
        },
{
    match size {
        StyleSize::Auto
        | StyleSize::MinContent
        | StyleSize::MaxContent
        | StyleSize::FitContent
        | StyleSize::FitContentFunction => true,
        StyleSize::Stretch => !containing_block.block_size_is_definite,
        StyleSize::LengthPercentage { is_definitely_zero, has_percentage } => {
            *is_definitely_zero || (*has_percentage && !containing_block.block_size_is_definite)
        },
        _ => vstd::pervasive::unreached(),
    }
}

/// When both inline margins are `auto` and the free space is non-negative and fits, the box
/// is centered: the margins take up the free space, and they are equal up to the rounding of
/// an odd free space. When only one margin is `auto`, the margins take up the free space
/// exactly, as long as the `auto` one comes out non-negative.
pub proof fn lemma_auto_margins_fill_free_space(cb: ContainingBlock, pbm: PaddingBorderMargin, inline_size: Au, justify_self: AlignFlags)
    requires
        cb.inline_size.is_valid(),
        pbm.is_valid(),
        inline_size.is_valid(),
        0 <= cb.inline_size.0 - pbm.padding_border_sums.inline.0 - inline_size.0 <= MAX_AU_VALUE,
        0 <= cb.inline_size.0 - pbm.padding_border_sums.inline.0 <= MAX_AU_VALUE,
    ensures
        ({
            let free = cb.inline_size.0 - pbm.padding_border_sums.inline.0 - inline_size.0;
            let ((start, end), effective) = solve_inline_margins_spec(cb, pbm, inline_size, justify_self);
            &&& (pbm.margin.inline_start is Auto && pbm.margin.inline_end is Auto) ==> {
                &&& start.0 + end.0 == free
                &&& 0 <= end.0 - start.0 <= 1
                &&& effective == start
            }
            &&& (pbm.margin.inline_start is Auto && (pbm.margin.inline_end matches AuOrAuto::LengthPercentage(e)
                && 0 <= free - e.0 <= MAX_AU_VALUE)) ==> start.0 + end.0 == free
            &&& (pbm.margin.inline_end is Auto && (pbm.margin.inline_start matches AuOrAuto::LengthPercentage(s)
                && 0 <= free - s.0 <= MAX_AU_VALUE)) ==> start.0 + end.0 == free
        }),
{
}

/// What margin collapsing reads of the style of a block-level box, resolved against its
/// containing block.
#[derive(Clone, Copy, Debug, PartialEq, Eq, Structural)]
pub struct BlockMarginStyle {
    /// The box's `clear` is `none`.
    pub clear_is_none: bool,
    /// The block-start margin, with `auto` as zero.
    pub margin_block_start: Au,
    /// The block-end margin, with `auto` as zero.
    pub margin_block_end: Au,
    pub padding_block_start: Au,
    pub border_block_start: Au,
    /// The sum of padding and border in the block axis.
    pub padding_border_block_sum: Au,
    /// The box's block size is zero or intrinsic.
    pub block_size_is_zero_or_intrinsic: bool,
    /// The box's minimum block size is zero or intrinsic.
    pub min_block_size_is_zero_or_intrinsic: bool,
}

impl BlockMarginStyle {
    pub open spec fn is_valid(self) -> bool {
        self.margin_block_start.is_valid() && self.margin_block_end.is_valid()
    }
}

/// A block container: block-level boxes, or an inline formatting context.
pub enum BlockContainer {
    BlockLevelBoxes(Vec<BlockLevelBox>),
    InlineFormattingContext { contains_floats: bool },
}

/// A block-level box, with what flow layout reads of it.
pub enum BlockLevelBox {
    Independent { style: BlockMarginStyle },
    OutOfFlowAbsolutelyPositionedBox,
    OutOfFlowFloatBox,
    OutsideMarker,
    SameFormattingContextBlock { style: BlockMarginStyle, contents: BlockContainer, contains_floats: bool },
}

impl BlockLevelBox {
    /// Whether the box holds floats that take part in the enclosing formatting context.
    pub open spec fn contains_floats_spec(&self) -> bool {
        match self {
            BlockLevelBox::SameFormattingContextBlock { contains_floats, .. } => *contains_floats,
            BlockLevelBox::OutOfFlowFloatBox => true,
            _ => false,
        }
    }

    /// Whether the box holds floats that take part in the enclosing formatting context.
    pub fn contains_floats(&self) -> (r: bool)
        ensures
            r == self.contains_floats_spec(),
    {
        match self {
            BlockLevelBox::SameFormattingContextBlock { contains_floats, .. } => *contains_floats,
            BlockLevelBox::OutOfFlowFloatBox => true,
            _ => false,
        }
    }
}

impl BlockContainer {
    /// Whether the container holds floats.
    pub open spec fn contains_floats_spec(&self) -> bool {
        match self {
            BlockContainer::BlockLevelBoxes(boxes) => exists|i: int| 0 <= i < boxes.len() && #[trigger] boxes@[i].contains_floats_spec(),
            BlockContainer::InlineFormattingContext { contains_floats } => *contains_floats,
        }
    }

    /// Whether the container holds floats: one of its block-level boxes does, or its inline
    /// formatting context does.
    pub fn contains_floats(&self) -> (r: bool)
        ensures
            r == self.contains_floats_spec(),
    {
        match self {
            BlockContainer::BlockLevelBoxes(boxes) => any_box_contains_floats(boxes),
            BlockContainer::InlineFormattingContext { contains_floats } => *contains_floats,
        }
    }
}

fn any_box_contains_floats(boxes: &Vec<BlockLevelBox>) -> (r: bool)
    ensures
        r == exists|i: int| 0 <= i < boxes.len() && #[trigger] boxes@[i].contains_floats_spec(),
{
    let mut i: usize = 0;
    while i < boxes.len()
        invariant
            i <= boxes.len(),
            forall|j: int| 0 <= j < i ==> !(#[trigger] boxes@[j].contains_floats_spec()),
        decreases boxes.len() - i,
    {
        if boxes[i].contains_floats() {
            assert(boxes@[i as int].contains_floats_spec());
            return true;
        }
        i = i + 1;
    }
    false
}

/// The content block size of a block formatting context root: the content of its children,
/// their trailing margin, and the clearance that a `clear: both` element placed after them
/// would get, so that the floats of the context are included.
pub fn block_formatting_context_content_block_size(
    children_block_size: Au,
    collapsible_margins_in_children: &CollapsedBlockMargins,
    clearance: Option<Au>,
) -> (r: Au)
    requires
        children_block_size.is_valid(),
        collapsible_margins_in_children.is_valid(),
        clearance matches Some(c) ==> c.is_valid(),
    ensures
        r == add_au(
            add_au(children_block_size, collapsible_margins_in_children.end.solve_spec()),
            match clearance { Some(c) => c, None => Au(0) },
        ),
{
    let end = collapsible_margins_in_children.end.solve();
    proof {
        lemma_plus_valid(children_block_size, end);
    }
    let with_margin = children_block_size.plus(end);
    let clearance_size = match clearance {
        Some(c) => c,
        None => Au::zero(),
    };
    proof {
        lemma_plus_valid(with_margin, clearance_size);
    }
    with_margin.plus(clearance_size)
}

/// Whether a block formatting context lays out its children in tree order with the floats
/// seen so far: when it contains floats, or when parallel layout is off.
pub fn lays_out_sequentially(contains_floats: bool, use_parallel_layout: bool) -> (r: bool)
    ensures
        r == (contains_floats || !use_parallel_layout),
{
    contains_floats || !use_parallel_layout
}

/// The content rectangle of the outside marker of a list item: as wide as its widest
/// fragment, and placed before the inline-start border and padding of the list item.
pub fn outside_marker_content_rect(
    fragment_max_inline_positions: &Vec<Au>,
    list_item_border_inline_start: Au,
    list_item_padding_inline_start: Au,
    content_block_size: Au,
) -> (r: LogicalRect)
    requires
        forall|i: int| 0 <= i < fragment_max_inline_positions.len() ==> #[trigger] fragment_max_inline_positions@[i].is_valid(),
        list_item_border_inline_start.is_valid(),
        list_item_padding_inline_start.is_valid(),
    ensures
        r.inline_size.0 >= 0,
        forall|i: int| 0 <= i < fragment_max_inline_positions.len() ==> #[trigger] fragment_max_inline_positions@[i].0 <= r.inline_size.0,
        r.inline_size.0 == 0 || exists|i: int| 0 <= i < fragment_max_inline_positions.len() && #[trigger] fragment_max_inline_positions@[i] == r.inline_size,
        r.start_inline == sub_au(
            Au((-r.inline_size.0) as i32),
            add_au(list_item_border_inline_start, list_item_padding_inline_start),
        ),
        r.start_block == Au(0),
        r.block_size == content_block_size,
{
    let mut max_inline_size = Au::zero();
    let mut i: usize = 0;
    while i < fragment_max_inline_positions.len()
        invariant
            i <= fragment_max_inline_positions.len(),
            forall|j: int| 0 <= j < fragment_max_inline_positions.len() ==> #[trigger] fragment_max_inline_positions@[j].is_valid(),
            0 <= max_inline_size.0 <= MAX_AU_VALUE,
            forall|j: int| 0 <= j < i ==> #[trigger] fragment_max_inline_positions@[j].0 <= max_inline_size.0,
            max_inline_size.0 == 0 || exists|j: int| 0 <= j < i && #[trigger] fragment_max_inline_positions@[j] == max_inline_size,
        decreases fragment_max_inline_positions.len() - i,
    {
        let position = fragment_max_inline_positions[i];
        assert(position == fragment_max_inline_positions@[i as int]);
        assert(position.is_valid());
        let previous = max_inline_size;
        max_inline_size = max_inline_size.max(position);
        proof {
            if max_inline_size.0 != 0 && max_inline_size != position {
                assert(max_inline_size == previous);
            }
        }
        i = i + 1;
    }
    proof {
        lemma_plus_valid(list_item_border_inline_start, list_item_padding_inline_start);
    }
    let border_and_padding = list_item_border_inline_start.plus(list_item_padding_inline_start);
    let negated = Au(-max_inline_size.0);
    proof {
        lemma_plus_valid(negated, border_and_padding);
    }
    LogicalRect {
        start_inline: negated.minus(border_and_padding),
        start_block: Au::zero(),
        inline_size: max_inline_size,
        block_size: content_block_size,
    }
}

/// Whether the margins of a block-level box, and those of the boxes inside it, collapse
/// through it into the block-start margin of its parent, together with the collapsed margin
/// once the margins that do collapse are taken in.
///
/// Out-of-flow boxes let margins collapse past them, an outside marker stops them, and so
/// does clearance. A box in the same formatting context lets them through when its block-start
/// padding and border are zero, all its children let them through, its block size and minimum
/// block size are zero or intrinsic, and its block padding and border are zero; its block-end
/// margin then collapses too.
pub open spec fn margin_collapsing_spec(b: BlockLevelBox, collected: CollapsedMargin) -> (bool, CollapsedMargin)
    decreases b, 1int,
{
    match b {
        BlockLevelBox::OutOfFlowAbsolutelyPositionedBox => (true, collected),
        BlockLevelBox::OutOfFlowFloatBox => (true, collected),
        BlockLevelBox::OutsideMarker => (false, collected),
        BlockLevelBox::Independent { style } => if !style.clear_is_none {
            (false, collected)
        } else {
            (false, adjoin_spec(collected, collapsed_margin_spec(style.margin_block_start)))
        },
        BlockLevelBox::SameFormattingContextBlock { style, contents, .. } => if !style.clear_is_none {
            (false, collected)
        } else {
            let c1 = adjoin_spec(collected, collapsed_margin_spec(style.margin_block_start));
            match contents {
                BlockContainer::InlineFormattingContext { .. } => (false, c1),
                BlockContainer::BlockLevelBoxes(children) => if style.padding_block_start.0 != 0
                    || style.border_block_start.0 != 0 {
                    (false, c1)
                } else {
                    let (all, c2) = children_margin_collapsing_spec(children@, c1);
                    if !all {
                        (false, c2)
                    } else if !style.block_size_is_zero_or_intrinsic
                        || !style.min_block_size_is_zero_or_intrinsic
                        || style.padding_border_block_sum.0 != 0 {
                        (false, c2)
                    } else {
                        (true, adjoin_spec(c2, collapsed_margin_spec(style.margin_block_end)))
                    }
                }
            }
        },
    }
}

/// Margin collapsing through a sequence of sibling boxes, in order, stopping at the first box
/// that does not let margins through.
pub open spec fn children_margin_collapsing_spec(boxes: Seq<BlockLevelBox>, collected: CollapsedMargin) -> (bool, CollapsedMargin)
    decreases boxes, 0int,
{
    if boxes.len() == 0 {
        (true, collected)
    } else {
        let (first, c1) = margin_collapsing_spec(boxes[0], collected);
        if !first {
            (false, c1)
        } else {
            children_margin_collapsing_spec(boxes.drop_first(), c1)
        }
    }
}

/// Margins collapse through a box in the same formatting context only when nothing in its
/// own style stops them: it does not clear, it holds block-level boxes, its block-start
/// padding and border are zero, its block size and minimum block size are zero or
/// intrinsic, and its block padding and border are zero. A box that lets margins through
/// collects at least its own block-start and block-end margins.
pub proof fn lemma_margins_collapse_through_only_empty_boxes(
    style: BlockMarginStyle,
    contents: BlockContainer,
    contains_floats: bool,
    collected: CollapsedMargin,
)
    ensures
        ({
            let (through, c) = margin_collapsing_spec(
                BlockLevelBox::SameFormattingContextBlock { style, contents, contains_floats },
                collected,
            );
            &&& through ==> {
                &&& style.clear_is_none
                &&& contents is BlockLevelBoxes
                &&& style.padding_block_start.0 == 0
                &&& style.border_block_start.0 == 0
                &&& style.block_size_is_zero_or_intrinsic
                &&& style.min_block_size_is_zero_or_intrinsic
                &&& style.padding_border_block_sum.0 == 0
                &&& c.max_positive.0 >= collapsed_margin_spec(style.margin_block_start).max_positive.0
                &&& c.max_positive.0 >= collapsed_margin_spec(style.margin_block_end).max_positive.0
                &&& c.min_negative.0 <= collapsed_margin_spec(style.margin_block_end).min_negative.0
            }
        }),
{
    reveal_with_fuel(margin_collapsing_spec, 1);
    let c1 = adjoin_spec(collected, collapsed_margin_spec(style.margin_block_start));
    if let BlockContainer::BlockLevelBoxes(children) = contents {
        lemma_children_margin_collapsing_keeps(children@, c1);
    }
}

/// A box in the same formatting context whose block size, or minimum block size, is neither
/// zero nor intrinsic stops margins from collapsing through it, and its block-end margin is
/// not collected: what is collected is what its start margin and its children left.
pub proof fn lemma_sized_box_stops_margin_collapsing(
    style: BlockMarginStyle,
    children: Vec<BlockLevelBox>,
    contains_floats: bool,
    collected: CollapsedMargin,
)
    requires
        !style.block_size_is_zero_or_intrinsic || !style.min_block_size_is_zero_or_intrinsic,
        style.clear_is_none,
        style.padding_block_start.0 == 0,
        style.border_block_start.0 == 0,
    ensures
        margin_collapsing_spec(
            BlockLevelBox::SameFormattingContextBlock {
                style,
                contents: BlockContainer::BlockLevelBoxes(children),
                contains_floats,
            },
            collected,
        ) == (false, children_margin_collapsing_spec(
            children@,
            adjoin_spec(collected, collapsed_margin_spec(style.margin_block_start)),
        ).1),
{
}

/// Collapsing margins through siblings only ever adds to what was collected.
pub proof fn lemma_children_margin_collapsing_keeps(boxes: Seq<BlockLevelBox>, collected: CollapsedMargin)
    ensures
        children_margin_collapsing_spec(boxes, collected).1.max_positive.0 >= collected.max_positive.0,
        children_margin_collapsing_spec(boxes, collected).1.min_negative.0 <= collected.min_negative.0,
    decreases boxes, 0int,
{
    if boxes.len() > 0 {
        lemma_margin_collapsing_keeps(boxes[0], collected);
        let c1 = margin_collapsing_spec(boxes[0], collected).1;
        assert(boxes.drop_first() =~= boxes.subrange(1, boxes.len() as int));
        lemma_children_margin_collapsing_keeps(boxes.drop_first(), c1);
    }
}

/// Collapsing margins through a box only ever adds to what was collected.
pub proof fn lemma_margin_collapsing_keeps(b: BlockLevelBox, collected: CollapsedMargin)
    ensures
        margin_collapsing_spec(b, collected).1.max_positive.0 >= collected.max_positive.0,
        margin_collapsing_spec(b, collected).1.min_negative.0 <= collected.min_negative.0,
    decreases b, 1int,
{
    if let BlockLevelBox::SameFormattingContextBlock { style, contents, .. } = b {
        if let BlockContainer::BlockLevelBoxes(children) = contents {
            let c1 = adjoin_spec(collected, collapsed_margin_spec(style.margin_block_start));
            lemma_children_margin_collapsing_keeps(children@, c1);
        }
    }
}

impl BlockLevelBox {
    /// Collapses into `collected_margin` the margins of this box and of the boxes inside it
    /// that collapse with the block-start margin of its parent, and tells whether margins
    /// collapse through the whole box.
    pub fn find_block_margin_collapsing_with_parent(&self, collected_margin: &mut CollapsedMargin) -> (r: bool)
        ensures
            (r, *final(collected_margin)) == margin_collapsing_spec(*self, *old(collected_margin)),
        decreases *self, 1int,
    {
        let style = match self {
            BlockLevelBox::SameFormattingContextBlock { style, .. } => style,
            BlockLevelBox::OutOfFlowAbsolutelyPositionedBox | BlockLevelBox::OutOfFlowFloatBox => {
                return true;
            },
            BlockLevelBox::OutsideMarker => {
                return false;
            },
            BlockLevelBox::Independent { style } => style,
        };
        if !style.clear_is_none {
            return false;
        }
        collected_margin.adjoin_assign(&CollapsedMargin::new(style.margin_block_start));
        let child_boxes = match self {
            BlockLevelBox::SameFormattingContextBlock { contents, .. } => match contents {
                BlockContainer::BlockLevelBoxes(boxes) => boxes,
                BlockContainer::InlineFormattingContext { .. } => {
                    return false;
                },
            },
            _ => {
                return false;
            },
        };
        if !style.padding_block_start.is_zero() || !style.border_block_start.is_zero() {
            return false;
        }
        if !Self::find_block_margin_collapsing_with_parent_from_slice(child_boxes, collected_margin) {
            return false;
        }
        if !style.block_size_is_zero_or_intrinsic || !style.min_block_size_is_zero_or_intrinsic
            || !style.padding_border_block_sum.is_zero() {
            return false;
        }
        collected_margin.adjoin_assign(&CollapsedMargin::new(style.margin_block_end));
        true
    }

    /// Margin collapsing through sibling boxes, in order, stopping at the first box that does
    /// not let margins through.
    pub fn find_block_margin_collapsing_with_parent_from_slice(
        boxes: &Vec<BlockLevelBox>,
        margin: &mut CollapsedMargin,
    ) -> (r: bool)
        ensures
            (r, *final(margin)) == children_margin_collapsing_spec(boxes@, *old(margin)),
        decreases boxes@, 0int,
    {
        let mut i: usize = 0;
        assert(boxes@.skip(0) =~= boxes@);
        while i < boxes.len()
            invariant
                i <= boxes.len(),
                children_margin_collapsing_spec(boxes@, *old(margin))
                    == children_margin_collapsing_spec(boxes@.skip(i as int), *margin),
            decreases boxes.len() - i,
        {
            let ghost rest = boxes@.skip(i as int);
            assert(rest[0] == boxes@[i as int]);
            assert(rest.drop_first() =~= boxes@.skip(i as int + 1));
            if !boxes[i].find_block_margin_collapsing_with_parent(margin) {
                return false;
            }
            i = i + 1;
        }
        assert(boxes@.skip(i as int).len() == 0);
        true
    }
}

/// What the margins of a block in the same formatting context become once its children are
/// laid out: the margins that collapse through it or with its parent, its content block size
/// (with the trailing margin of its children, where that margin does not collapse through its
/// block-end), and whether its block-end margin collapses with its children's.
pub open spec fn margins_with_children_spec(
    margin: LogicalSides<Au>,
    pbm: PaddingBorderMargin,
    children_block_size: Au,
    in_children: CollapsedBlockMargins,
    block_size_is_zero_or_intrinsic: bool,
    min_block_size_is_zero_or_intrinsic: bool,
    children_block_size_is_definite: bool,
) -> (CollapsedBlockMargins, Au, bool) {
    let start_can_collapse = pbm.padding.block_start.0 == 0 && pbm.border.block_start.0 == 0;
    let own_start = collapsed_margin_spec(margin.block_start);
    let (start, children_end) = if start_can_collapse {
        if in_children.collapsed_through {
            (adjoin_spec(adjoin_spec(own_start, in_children.start), in_children.end), zero_margin())
        } else {
            (adjoin_spec(own_start, in_children.start), in_children.end)
        }
    } else {
        (own_start, in_children.end)
    };
    let collapsed_through = in_children.collapsed_through && pbm.padding_border_sums.block.0 == 0
        && block_size_is_zero_or_intrinsic && min_block_size_is_zero_or_intrinsic;
    let end_can_collapse = collapsed_through || (pbm.padding.block_end.0 == 0 && pbm.border.block_end.0 == 0
        && !children_block_size_is_definite);
    let own_end = collapsed_margin_spec(margin.block_end);
    if end_can_collapse {
        (CollapsedBlockMargins { collapsed_through, start, end: adjoin_spec(own_end, children_end) }, children_block_size, true)
    } else {
        (
            CollapsedBlockMargins { collapsed_through, start, end: own_end },
            add_au(children_block_size, children_end.solve_spec()),
            false,
        )
    }
}

/// Collapses the margins of a block in the same formatting context with those of its
/// children, once they are laid out. Returns the margins that collapse through the block or
/// with its parent, its content block size, and whether its block-end margin collapsed with
/// its children's.
pub fn collapse_margins_with_children(
    margin: &LogicalSides<Au>,
    pbm: &PaddingBorderMargin,
    children_block_size: Au,
    collapsible_margins_in_children: CollapsedBlockMargins,
    block_size_is_zero_or_intrinsic: bool,
    min_block_size_is_zero_or_intrinsic: bool,
    children_block_size_is_definite: bool,
) -> (r: (CollapsedBlockMargins, Au, bool))
    requires
        children_block_size.is_valid(),
        collapsible_margins_in_children.is_valid(),
    ensures
        r == margins_with_children_spec(
            *margin,
            *pbm,
            children_block_size,
            collapsible_margins_in_children,
            block_size_is_zero_or_intrinsic,
            min_block_size_is_zero_or_intrinsic,
            children_block_size_is_definite,
        ),
{
    let start_margin_can_collapse_with_children = pbm.padding.block_start.is_zero()
        && pbm.border.block_start.is_zero();
    let mut content_block_size = children_block_size;
    let mut block_margins_collapsed_with_children = CollapsedBlockMargins::from_margin(margin);
    let mut in_children = collapsible_margins_in_children;
    if start_margin_can_collapse_with_children {
        block_margins_collapsed_with_children.start.adjoin_assign(&in_children.start);
        if in_children.collapsed_through {
            let end = in_children.end;
            in_children.end = CollapsedMargin::zero();
            block_margins_collapsed_with_children.start.adjoin_assign(&end);
        }
    }
    let collapsed_through = in_children.collapsed_through && pbm.padding_border_sums.block.is_zero()
        && block_size_is_zero_or_intrinsic && min_block_size_is_zero_or_intrinsic;
    block_margins_collapsed_with_children.collapsed_through = collapsed_through;
    let end_margin_can_collapse_with_children = collapsed_through || (pbm.padding.block_end.is_zero()
        && pbm.border.block_end.is_zero() && !children_block_size_is_definite);
    if end_margin_can_collapse_with_children {
        block_margins_collapsed_with_children.end.adjoin_assign(&in_children.end);
    } else {
        let end = in_children.end.solve();
        proof {
            lemma_plus_valid(content_block_size, end);
        }
        content_block_size = content_block_size.plus(end);
    }
    (block_margins_collapsed_with_children, content_block_size, end_margin_can_collapse_with_children)
}

/// An outside list marker does not advance the block position of the placement: placing it
/// only records its block size. The content of the list item is then at least as tall as the
/// marker, and the list item does not collapse through.
pub proof fn lemma_outside_marker_placement(s: PlacementState, b: BoxFragmentInfo)
    requires
        s.is_valid(),
        b.is_outside_marker,
        b.is_valid(),
    ensures
        ({
            let (s1, f1, p) = place_fragment_spec(s, PlacedFragment::Box(b));
            let (size, margins, _) = finish_spec(s1);
            &&& s1 == (PlacementState { marker_block_size: Some(b.content_block_size), ..s })
            &&& f1 == PlacedFragment::Box(b)
            &&& p is None
            &&& size.0 >= b.content_block_size.0
            &&& !margins.collapsed_through
        }),
{
}

/// Clearance separates a box from the margins above it: after a box with clearance, no later
/// margin collapses with the parent's block-start margin, the margins collected above the box
/// are added to the block position, and the box's own block-start margin does not collapse
/// with them. The margin collected afterwards starts from the box's own margins alone, and the
/// block position moves past the margins above, the clearance and the box.
pub proof fn lemma_clearance_separates_margins(s: PlacementState, b: BoxFragmentInfo)
    requires
        s.is_valid(),
        !b.is_outside_marker,
        b.is_valid(),
        b.clearance is Some,
    ensures
        ({
            let (s1, f1) = place_box_spec(s, b);
            &&& !s1.next_in_flow_margin_collapses_with_parent_start_margin
            &&& s1.start_margin == s.start_margin
            &&& !b.block_margins.collapsed_through ==> f1.content_block_start == add_au(
                b.content_block_start,
                add_au(
                    b.block_margins.start.solve_spec(),
                    add_au(s.current_block_direction_position, s.current_margin.solve_spec()),
                ),
            )
            &&& s1.current_margin == if b.block_margins.collapsed_through {
                adjoin_spec(b.block_margins.start, b.block_margins.end)
            } else {
                b.block_margins.end
            }
            &&& s1.current_block_direction_position == if b.block_margins.collapsed_through {
                add_au(
                    add_au(s.current_block_direction_position, s.current_margin.solve_spec()),
                    add_au(b.border_block_size, b.clearance.unwrap()),
                )
            } else {
                add_au(
                    add_au(s.current_block_direction_position, s.current_margin.solve_spec()),
                    add_au(b.block_margins.start.solve_spec(), add_au(b.border_block_size, b.clearance.unwrap())),
                )
            }
        }),
{
    lemma_adjoin_laws(b.block_margins.start, zero_margin(), zero_margin());
}

/// Placing a box without clearance loses no margin collected before it. When margins collapse
/// through the box, its block-start and then its block-end margin join the margin collected
/// so far (the parent's block-start margin while nothing separated the box from it, the
/// current margin otherwise), whose positive part can only grow, and the block position
/// moves by the box's size alone. When they do not, the box sits below the margin collected
/// so far joined with its block-start margin, and its block-end margin alone is collected
/// next.
pub proof fn lemma_place_box_collects_margins(s: PlacementState, b: BoxFragmentInfo)
    requires
        !b.is_outside_marker,
        b.clearance is None,
    ensures
        ({
            let (s1, f1, float_placement) = place_fragment_spec(s, PlacedFragment::Box(b));
            let m = b.block_margins;
            &&& float_placement is None
            &&& (m.collapsed_through && s.next_in_flow_margin_collapses_with_parent_start_margin) ==> {
                &&& s1.start_margin == adjoin_spec(adjoin_spec(s.start_margin, m.start), m.end)
                &&& s1.start_margin.max_positive.0 >= s.start_margin.max_positive.0
                &&& s1.current_margin == s.current_margin
                &&& s1.current_block_direction_position == s.current_block_direction_position
                &&& f1 == PlacedFragment::Box(b)
            }
            &&& (m.collapsed_through && !s.next_in_flow_margin_collapses_with_parent_start_margin) ==> {
                &&& s1.current_margin == adjoin_spec(adjoin_spec(s.current_margin, m.start), m.end)
                &&& s1.current_margin.max_positive.0 >= s.current_margin.max_positive.0
                &&& s1.current_margin.min_negative.0 <= s.current_margin.min_negative.0
                &&& s1.start_margin == s.start_margin
                &&& s1.current_block_direction_position == add_au(
                    s.current_block_direction_position,
                    b.border_block_size,
                )
            }
            &&& !m.collapsed_through ==> {
                let above = if s.next_in_flow_margin_collapses_with_parent_start_margin {
                    s.current_margin
                } else {
                    adjoin_spec(s.current_margin, m.start)
                };
                &&& s1.current_margin == m.end
                &&& !s1.next_in_flow_margin_collapses_with_parent_start_margin
                &&& s1.current_block_direction_position == add_au(
                    s.current_block_direction_position,
                    add_au(above.solve_spec(), b.border_block_size),
                )
                &&& f1 == PlacedFragment::Box(BoxFragmentInfo {
                    content_block_start: add_au(
                        b.content_block_start,
                        add_au(above.solve_spec(), s.current_block_direction_position),
                    ),
                    ..b
                })
            }
        }),
{
}

/// A box whose margins collapse through it, placed after a box whose margins do not, leaves
/// collected the first box's block-end margin joined with both of its own margins: the margin
/// before the next box is at least as large as each of them.
pub proof fn lemma_margins_collapse_through_empty_box(s: PlacementState, a: BoxFragmentInfo, b: BoxFragmentInfo)
    requires
        !a.is_outside_marker,
        !b.is_outside_marker,
        a.clearance is None,
        b.clearance is None,
        !a.block_margins.collapsed_through,
        b.block_margins.collapsed_through,
    ensures
        ({
            let (s1, _, _) = place_fragment_spec(s, PlacedFragment::Box(a));
            let (s2, _, _) = place_fragment_spec(s1, PlacedFragment::Box(b));
            &&& s2.current_margin == adjoin_spec(
                adjoin_spec(a.block_margins.end, b.block_margins.start),
                b.block_margins.end,
            )
            &&& s2.current_margin.max_positive.0 >= a.block_margins.end.max_positive.0
            &&& s2.current_margin.max_positive.0 >= b.block_margins.start.max_positive.0
            &&& s2.current_margin.max_positive.0 >= b.block_margins.end.max_positive.0
            &&& s2.current_block_direction_position == add_au(
                s1.current_block_direction_position,
                b.border_block_size,
            )
        }),
{
    lemma_place_box_collects_margins(s, a);
    lemma_place_box_collects_margins(place_fragment_spec(s, PlacedFragment::Box(a)).0, b);
}

/// A container with no children has no content: its block size is zero and its margins
/// collapse through it exactly when its start margin may collapse with its parent.
pub proof fn lemma_empty_placement(collapsible_with_parent_start_margin: bool, is_inline_block_context: bool)
    ensures
        ({
            let s = PlacementState {
                next_in_flow_margin_collapses_with_parent_start_margin: collapsible_with_parent_start_margin,
                last_in_flow_margin_collapses_with_parent_end_margin: true,
                start_margin: zero_margin(),
                current_margin: zero_margin(),
                current_block_direction_position: Au(0),
                inflow_baselines: Baselines { first: None, last: None },
                is_inline_block_context,
                marker_block_size: None,
            };
            let (size, margins, baselines) = finish_spec(s);
            &&& size == Au(0)
            &&& margins.collapsed_through == collapsible_with_parent_start_margin
            &&& margins.start == zero_margin()
            &&& margins.end == zero_margin()
            &&& baselines == (Baselines { first: None, last: None })
        }),
{
}

/// The space available to the content of a box in its containing block: the containing
/// block's inline size less the box's padding, border and margin, and likewise its block size
/// where that is definite, both floored at zero.
pub fn available_space(
    containing_block_inline_size: Au,
    containing_block_block_size: Option<Au>,
    pbm_sums: &LogicalVec2<Au>,
) -> (r: (Au, Option<Au>))
    requires
        containing_block_inline_size.is_valid(),
        containing_block_block_size matches Some(b) ==> b.is_valid(),
        pbm_sums.inline.is_valid(),
        pbm_sums.block.is_valid(),
    ensures
        r.0 == max_au(Au(0), sub_au(containing_block_inline_size, pbm_sums.inline)),
        r.1 == match containing_block_block_size {
            Some(b) => Some(max_au(Au(0), sub_au(b, pbm_sums.block))),
            None => None,
        },
{
    proof {
        lemma_plus_valid(containing_block_inline_size, pbm_sums.inline);
    }
    let inline = Au::zero().max(containing_block_inline_size.minus(pbm_sums.inline));
    let block = match containing_block_block_size {
        Some(b) => {
            proof {
                lemma_plus_valid(b, pbm_sums.block);
            }
            Some(Au::zero().max(b.minus(pbm_sums.block)))
        },
        None => None,
    };
    (inline, block)
}

/// The margins of a float or an atomic inline, with `auto` as zero, and the sums of its
/// padding, border and those margins, side by side.
pub struct FloatOrAtomicBoxSides {
    pub margin: LogicalSides<Au>,
    pub pbm_sums: LogicalSides<Au>,
}

/// The sum of the padding, border and margin of one side of a box, with an `auto` margin as
/// zero.
pub open spec fn side_pbm_sum(padding: Au, border: Au, margin: AuOrAuto) -> Au {
    add_au(add_au(padding, border), margin.auto_is_zero_spec())
}

fn side_sum(padding: Au, border: Au, margin: AuOrAuto) -> (r: Au)
    requires
        padding.is_valid(),
        border.is_valid(),
        margin.is_valid(),
    ensures
        r == side_pbm_sum(padding, border, margin),
        r.is_valid(),
{
    proof {
        lemma_plus_valid(padding, border);
        lemma_plus_valid(add_au(padding, border), margin.auto_is_zero_spec());
    }
    padding.plus(border).plus(margin.auto_is_zero())
}

/// The margins of a float or an atomic inline, where `auto` counts as zero, and the sums of
/// its padding, border and margin on each side.
pub fn float_or_atomic_box_sides(pbm: &PaddingBorderMargin) -> (r: FloatOrAtomicBoxSides)
    requires
        pbm.is_valid(),
    ensures
        r.margin == (LogicalSides {
            inline_start: pbm.margin.inline_start.auto_is_zero_spec(),
            inline_end: pbm.margin.inline_end.auto_is_zero_spec(),
            block_start: pbm.margin.block_start.auto_is_zero_spec(),
            block_end: pbm.margin.block_end.auto_is_zero_spec(),
        }),
        r.pbm_sums == (LogicalSides {
            inline_start: side_pbm_sum(pbm.padding.inline_start, pbm.border.inline_start, pbm.margin.inline_start),
            inline_end: side_pbm_sum(pbm.padding.inline_end, pbm.border.inline_end, pbm.margin.inline_end),
            block_start: side_pbm_sum(pbm.padding.block_start, pbm.border.block_start, pbm.margin.block_start),
            block_end: side_pbm_sum(pbm.padding.block_end, pbm.border.block_end, pbm.margin.block_end),
        }),
{
    let margin = LogicalSides {
        inline_start: pbm.margin.inline_start.auto_is_zero(),
        inline_end: pbm.margin.inline_end.auto_is_zero(),
        block_start: pbm.margin.block_start.auto_is_zero(),
        block_end: pbm.margin.block_end.auto_is_zero(),
    };
    let pbm_sums = LogicalSides {
        inline_start: side_sum(pbm.padding.inline_start, pbm.border.inline_start, pbm.margin.inline_start),
        inline_end: side_sum(pbm.padding.inline_end, pbm.border.inline_end, pbm.margin.inline_end),
        block_start: side_sum(pbm.padding.block_start, pbm.border.block_start, pbm.margin.block_start),
        block_end: side_sum(pbm.padding.block_end, pbm.border.block_end, pbm.margin.block_end),
    };
    FloatOrAtomicBoxSides { margin, pbm_sums }
}

/// The space available to the content of a float or an atomic inline: the containing block's
/// inline size less the padding, border and margin (`auto` as zero) of both inline sides, and
/// likewise its block size where that is definite, both floored at zero.
pub fn float_or_atomic_available_space(
    containing_block_inline_size: Au,
    containing_block_block_size: Option<Au>,
    pbm: &PaddingBorderMargin,
) -> (r: (Au, Option<Au>))
    requires
        pbm.is_valid(),
        containing_block_inline_size.is_valid(),
        containing_block_block_size matches Some(b) ==> b.is_valid(),
    ensures
        ({
            let inline_sum = add_au(
                side_pbm_sum(pbm.padding.inline_start, pbm.border.inline_start, pbm.margin.inline_start),
                side_pbm_sum(pbm.padding.inline_end, pbm.border.inline_end, pbm.margin.inline_end),
            );
            let block_sum = add_au(
                side_pbm_sum(pbm.padding.block_start, pbm.border.block_start, pbm.margin.block_start),
                side_pbm_sum(pbm.padding.block_end, pbm.border.block_end, pbm.margin.block_end),
            );
            &&& r.0 == max_au(Au(0), sub_au(containing_block_inline_size, inline_sum))
            &&& r.1 == match containing_block_block_size {
                Some(b) => Some(max_au(Au(0), sub_au(b, block_sum))),
                None => None,
            }
        }),
{
    let sides = float_or_atomic_box_sides(pbm);
    let sums = sides.pbm_sums;
    proof {
        lemma_plus_valid(sums.inline_start, sums.inline_end);
        lemma_plus_valid(sums.block_start, sums.block_end);
    }
    let totals = LogicalVec2 {
        inline: sums.inline_start.plus(sums.inline_end),
        block: sums.block_start.plus(sums.block_end),
    };
    available_space(containing_block_inline_size, containing_block_block_size, &totals)
}

/// The inline size of the content of a laid-out box: the content inline size that a table
/// reports (smaller than predicted when columns collapsed), and otherwise the inline size it
/// was laid out with.
pub fn content_inline_size(content_inline_size_for_table: Option<Au>, inline_size: Au) -> (r: Au)
    ensures
        r == match content_inline_size_for_table {
            Some(table_inline_size) => table_inline_size,
            None => inline_size,
        },
{
    match content_inline_size_for_table {
        Some(table_inline_size) => table_inline_size,
        None => inline_size,
    }
}

/// Whether the block-start and block-end margins of the children of a box are ignored when
/// they stretch to its block size: they are where the box has no padding and no border on
/// that side.
pub fn ignore_block_margins_for_stretch(pbm: &PaddingBorderMargin) -> (r: (bool, bool))
    ensures
        r == (
            pbm.border.block_start.0 == 0 && pbm.padding.block_start.0 == 0,
            pbm.border.block_end.0 == 0 && pbm.padding.block_end.0 == 0,
        ),
{
    (
        pbm.border.block_start.is_zero() && pbm.padding.block_start.is_zero(),
        pbm.border.block_end.is_zero() && pbm.padding.block_end.is_zero(),
    )
}

/// The content rectangle of an in-flow block-level box within its margin box: after its
/// block-start padding, border and clearance, and after its inline-start padding, border and
/// effective margin.
pub fn in_flow_content_rect(
    pbm: &PaddingBorderMargin,
    clearance: Option<Au>,
    effective_margin_inline_start: Au,
    inline_size: Au,
    block_size: Au,
) -> (r: LogicalRect)
    requires
        pbm.is_valid(),
        clearance matches Some(c) ==> c.is_valid(),
        effective_margin_inline_start.is_valid(),
    ensures
        r.start_block == add_au(
            add_au(pbm.padding.block_start, pbm.border.block_start),
            match clearance { Some(c) => c, None => Au(0) },
        ),
        r.start_inline == add_au(
            add_au(pbm.padding.inline_start, pbm.border.inline_start),
            effective_margin_inline_start,
        ),
        r.inline_size == inline_size,
        r.block_size == block_size,
{
    proof {
        lemma_plus_valid(pbm.padding.block_start, pbm.border.block_start);
        lemma_plus_valid(pbm.padding.inline_start, pbm.border.inline_start);
    }
    let block_start = pbm.padding.block_start.plus(pbm.border.block_start);
    let clearance_size = match clearance {
        Some(c) => c,
        None => Au::zero(),
    };
    let inline_start = pbm.padding.inline_start.plus(pbm.border.inline_start);
    proof {
        lemma_plus_valid(block_start, clearance_size);
        lemma_plus_valid(inline_start, effective_margin_inline_start);
    }
    LogicalRect {
        start_block: block_start.plus(clearance_size),
        start_inline: inline_start.plus(effective_margin_inline_start),
        inline_size,
        block_size,
    }
}

/// The clearance of a box that establishes an independent formatting context, placed among
/// floats. There is clearance when `clear` called for it or when the placement among floats
/// moved the box below the ceiling; it is then the distance from the position that the box
/// would have with zero clearance to where it was placed. Only these two situations prevent
/// the collapsing of margins.
pub fn independent_clearance(
    clear_position: Option<Au>,
    placement_block_start: Au,
    ceiling: Au,
    position_with_zero_clearance: Au,
) -> (r: Option<Au>)
    requires
        placement_block_start.is_valid(),
        position_with_zero_clearance.is_valid(),
    ensures
        r == if clear_position is Some || placement_block_start.0 > ceiling.0 {
            Some(sub_au(placement_block_start, position_with_zero_clearance))
        } else {
            None
        },
{
    let has_clearance = clear_position.is_some() || placement_block_start.0 > ceiling.0;
    if has_clearance {
        proof {
            lemma_plus_valid(placement_block_start, position_with_zero_clearance);
        }
        Some(placement_block_start.minus(position_with_zero_clearance))
    } else {
        None
    }
}

/// A box placed among floats starts no earlier than the rectangle where it was placed: its
/// effective inline-start margin reaches at least from the containing block to that
/// rectangle.
pub proof fn lemma_avoiding_floats_respects_placement(
    cb_info: ContainingBlockInlineExtent,
    cb: ContainingBlock,
    pbm: PaddingBorderMargin,
    inline_size: Au,
    placement_rect: LogicalRect,
    justify_self: AlignFlags,
)
    requires
        cb_info.inline_start.is_valid(),
        cb_info.inline_end.is_valid(),
        pbm.is_valid(),
        inline_size.is_valid(),
        placement_rect.start_inline.is_valid(),
        placement_rect.inline_size.is_valid(),
    ensures
        solve_inline_margins_avoiding_floats_spec(cb_info, cb, pbm, inline_size, placement_rect, justify_self).1.0
            >= sub_au(placement_rect.start_inline, cb_info.inline_start).0,
{
}

/// An operation on the state of sequential layout, which tracks the block position, the
/// collapsed margin and the containing block of the floats of a block formatting context
/// while its boxes are laid out in tree order.
#[derive(Clone, Copy, Debug, PartialEq, Eq, Structural)]
pub enum SequentialOp {
    /// Collapse the current margin into the block position.
    CollapseMargins,
    /// Adjoin a margin to the current collapsed margin.
    AdjoinMargin(CollapsedMargin),
    /// Advance the block position.
    AdvanceBlockPosition(Au),
    /// Enter the containing block of the children: it starts at the current block position,
    /// with the current margin not collapsed yet, `inline_offset` after the inline start of
    /// the current containing block, and is `inline_size` wide. The current containing block
    /// is saved.
    EnterContainingBlock { inline_offset: Au, inline_size: Au },
    /// Restore the containing block saved on entering.
    LeaveContainingBlock,
}

/// The block-start margin with which the clearance of a block in the same formatting context
/// is computed: its own margin, and, when that margin does not already collapse with the
/// parent but may collapse with the block's children, the margins that collapse through the
/// leading children (until one whose `clear` is not `none`).
pub open spec fn block_start_margin_for_clearance_spec(
    margin_block_start: Au,
    collapsible_with_parent_start_margin: bool,
    clear_is_none: bool,
    start_margin_can_collapse_with_children: bool,
    contents: BlockContainer,
) -> CollapsedMargin {
    let own = collapsed_margin_spec(margin_block_start);
    let collapsible = collapsible_with_parent_start_margin && clear_is_none;
    if !collapsible && start_margin_can_collapse_with_children {
        match contents {
            BlockContainer::BlockLevelBoxes(children) => children_margin_collapsing_spec(children@, own).1,
            _ => own,
        }
    } else {
        own
    }
}

/// The block-start margin with which the clearance of a block in the same formatting context
/// is computed: see [`block_start_margin_for_clearance_spec`].
pub fn block_start_margin_for_clearance(
    margin_block_start: Au,
    collapsible_with_parent_start_margin: bool,
    clear_is_none: bool,
    start_margin_can_collapse_with_children: bool,
    contents: &BlockContainer,
) -> (r: CollapsedMargin)
    ensures
        r == block_start_margin_for_clearance_spec(
            margin_block_start,
            collapsible_with_parent_start_margin,
            clear_is_none,
            start_margin_can_collapse_with_children,
            *contents,
        ),
{
    let mut block_start_margin = CollapsedMargin::new(margin_block_start);
    let collapsible = collapsible_with_parent_start_margin && clear_is_none;
    if !collapsible && start_margin_can_collapse_with_children {
        match contents {
            BlockContainer::BlockLevelBoxes(children) => {
                BlockLevelBox::find_block_margin_collapsing_with_parent_from_slice(children, &mut block_start_margin);
            },
            _ => {},
        }
    }
    block_start_margin
}

/// The operations on sequential layout before the children of a block in the same
/// formatting context are laid out.
pub open spec fn block_start_ops_spec(
    clearance: Option<Au>,
    block_start_margin: CollapsedMargin,
    start_margin_can_collapse_with_children: bool,
    pbm: PaddingBorderMargin,
    effective_margin_inline_start: Au,
    children_inline_size: Au,
) -> Seq<SequentialOp> {
    // Clearance keeps the margins above from collapsing with this block's.
    let clear = if clearance is Some { seq![SequentialOp::CollapseMargins] } else { Seq::empty() };
    // A block-start margin that cannot collapse with the children is collapsed at once.
    let separate = if !start_margin_can_collapse_with_children {
        seq![SequentialOp::CollapseMargins]
    } else {
        Seq::empty()
    };
    clear + seq![SequentialOp::AdjoinMargin(block_start_margin)] + separate + seq![
        SequentialOp::AdvanceBlockPosition(
            add_au(
                add_au(pbm.padding.block_start, pbm.border.block_start),
                match clearance { Some(c) => c, None => Au(0) },
            ),
        ),
        SequentialOp::EnterContainingBlock {
            inline_offset: add_au(
                add_au(pbm.padding.inline_start, pbm.border.inline_start),
                effective_margin_inline_start,
            ),
            inline_size: children_inline_size,
        },
    ]
}

/// The operations on sequential layout before the children of a block in the same
/// formatting context are laid out: collapse the margins above when there is clearance,
/// adjoin the block-start margin (collapsing it at once when it cannot collapse with the
/// children), advance past the block-start padding, border and clearance, and enter the
/// containing block of the children.
pub fn block_start_ops(
    clearance: Option<Au>,
    block_start_margin: CollapsedMargin,
    start_margin_can_collapse_with_children: bool,
    pbm: &PaddingBorderMargin,
    effective_margin_inline_start: Au,
    children_inline_size: Au,
) -> (r: Vec<SequentialOp>)
    requires
        clearance matches Some(c) ==> c.is_valid(),
        pbm.is_valid(),
        effective_margin_inline_start.is_valid(),
    ensures
        r@ == block_start_ops_spec(
            clearance,
            block_start_margin,
            start_margin_can_collapse_with_children,
            *pbm,
            effective_margin_inline_start,
            children_inline_size,
        ),
{
    let mut ops: Vec<SequentialOp> = Vec::new();
    if clearance.is_some() {
        ops.push(SequentialOp::CollapseMargins);
    }
    ops.push(SequentialOp::AdjoinMargin(block_start_margin));
    if !start_margin_can_collapse_with_children {
        ops.push(SequentialOp::CollapseMargins);
    }
    let rect = in_flow_content_rect(pbm, clearance, effective_margin_inline_start, children_inline_size, Au::zero());
    ops.push(SequentialOp::AdvanceBlockPosition(rect.start_block));
    ops.push(SequentialOp::EnterContainingBlock { inline_offset: rect.start_inline, inline_size: children_inline_size });
    proof {
        let clear = if clearance is Some { seq![SequentialOp::CollapseMargins] } else { Seq::<SequentialOp>::empty() };
        let separate = if !start_margin_can_collapse_with_children {
            seq![SequentialOp::CollapseMargins]
        } else {
            Seq::<SequentialOp>::empty()
        };
        assert(ops@ =~= block_start_ops_spec(
            clearance,
            block_start_margin,
            start_margin_can_collapse_with_children,
            *pbm,
            effective_margin_inline_start,
            children_inline_size,
        ));
    }
    ops
}

/// The operations on sequential layout after the children of a block in the same formatting
/// context are laid out.
pub open spec fn block_end_ops_spec(
    block_size: Au,
    content_block_size: Au,
    pbm: PaddingBorderMargin,
    end_margin_can_collapse_with_children: bool,
    margin_block_end: Au,
) -> Seq<SequentialOp> {
    let advance = add_au(add_au(sub_au(block_size, content_block_size), pbm.padding.block_end), pbm.border.block_end);
    let separate = if !end_margin_can_collapse_with_children {
        seq![SequentialOp::CollapseMargins]
    } else {
        Seq::empty()
    };
    seq![SequentialOp::LeaveContainingBlock, SequentialOp::AdvanceBlockPosition(advance)] + separate
        + seq![SequentialOp::AdjoinMargin(collapsed_margin_spec(margin_block_end))]
}

/// The operations on sequential layout after the children of a block in the same formatting
/// context are laid out: restore the parent's containing block, advance by the difference
/// between the block's size and its content's and past its block-end padding and border,
/// collapse the margins when the block-end margin cannot collapse with the children, and
/// adjoin the block-end margin.
pub fn block_end_ops(
    block_size: Au,
    content_block_size: Au,
    pbm: &PaddingBorderMargin,
    end_margin_can_collapse_with_children: bool,
    margin_block_end: Au,
) -> (r: Vec<SequentialOp>)
    requires
        block_size.is_valid(),
        content_block_size.is_valid(),
        pbm.is_valid(),
    ensures
        r@ == block_end_ops_spec(block_size, content_block_size, *pbm, end_margin_can_collapse_with_children, margin_block_end),
{
    proof {
        lemma_plus_valid(block_size, content_block_size);
    }
    let difference = block_size.minus(content_block_size);
    proof {
        lemma_plus_valid(difference, pbm.padding.block_end);
    }
    let with_padding = difference.plus(pbm.padding.block_end);
    proof {
        lemma_plus_valid(with_padding, pbm.border.block_end);
    }
    let advance = with_padding.plus(pbm.border.block_end);
    let mut ops: Vec<SequentialOp> = Vec::new();
    ops.push(SequentialOp::LeaveContainingBlock);
    ops.push(SequentialOp::AdvanceBlockPosition(advance));
    if !end_margin_can_collapse_with_children {
        ops.push(SequentialOp::CollapseMargins);
    }
    ops.push(SequentialOp::AdjoinMargin(CollapsedMargin::new(margin_block_end)));
    assert(ops@ =~= block_end_ops_spec(block_size, content_block_size, *pbm, end_margin_can_collapse_with_children, margin_block_end));
    ops
}

/// The operations on sequential layout for a block that establishes an independent formatting
/// context, once it is placed among floats.
pub open spec fn independent_block_ops_spec(
    clearance: Option<Au>,
    margin_block_start: Au,
    padding_border_block_sum: Au,
    content_block_size: Au,
    margin_block_end: Au,
) -> Seq<SequentialOp> {
    let clear = if clearance is Some { seq![SequentialOp::CollapseMargins] } else { Seq::empty() };
    clear + seq![
        SequentialOp::AdjoinMargin(collapsed_margin_spec(margin_block_start)),
        SequentialOp::CollapseMargins,
        SequentialOp::AdvanceBlockPosition(
            add_au(
                add_au(padding_border_block_sum, content_block_size),
                match clearance { Some(c) => c, None => Au(0) },
            ),
        ),
        SequentialOp::AdjoinMargin(collapsed_margin_spec(margin_block_end)),
    ]
}

/// The operations on sequential layout for a block that establishes an independent formatting
/// context: collapse the margins above when there is clearance, adjoin the block-start
/// margin and collapse it (margins never collapse into an independent formatting context),
/// advance past the whole box and its clearance, and adjoin the block-end margin.
pub fn independent_block_ops(
    clearance: Option<Au>,
    margin_block_start: Au,
    padding_border_block_sum: Au,
    content_block_size: Au,
    margin_block_end: Au,
) -> (r: Vec<SequentialOp>)
    requires
        clearance matches Some(c) ==> c.is_valid(),
        padding_border_block_sum.is_valid(),
        content_block_size.is_valid(),
    ensures
        r@ == independent_block_ops_spec(
            clearance,
            margin_block_start,
            padding_border_block_sum,
            content_block_size,
            margin_block_end,
        ),
{
    let mut ops: Vec<SequentialOp> = Vec::new();
    if clearance.is_some() {
        ops.push(SequentialOp::CollapseMargins);
    }
    ops.push(SequentialOp::AdjoinMargin(CollapsedMargin::new(margin_block_start)));
    ops.push(SequentialOp::CollapseMargins);
    proof {
        lemma_plus_valid(padding_border_block_sum, content_block_size);
    }
    let size = padding_border_block_sum.plus(content_block_size);
    let clearance_size = match clearance {
        Some(c) => c,
        None => Au::zero(),
    };
    proof {
        lemma_plus_valid(size, clearance_size);
    }
    ops.push(SequentialOp::AdvanceBlockPosition(size.plus(clearance_size)));
    ops.push(SequentialOp::AdjoinMargin(CollapsedMargin::new(margin_block_end)));
    proof {
        let clear = if clearance is Some { seq![SequentialOp::CollapseMargins] } else { Seq::<SequentialOp>::empty() };
        assert(ops@ =~= independent_block_ops_spec(
            clearance,
            margin_block_start,
            padding_border_block_sum,
            content_block_size,
            margin_block_end,
        ));
    }
    ops
}

/// Margins never collapse into an independent formatting context: right after its
/// block-start margin is adjoined, the margins are collapsed, before the block position
/// advances past the box.
pub proof fn lemma_no_margin_collapses_into_independent_context(
    clearance: Option<Au>,
    margin_block_start: Au,
    padding_border_block_sum: Au,
    content_block_size: Au,
    margin_block_end: Au,
)
    ensures
        ({
            let ops = independent_block_ops_spec(clearance, margin_block_start, padding_border_block_sum, content_block_size, margin_block_end);
            let k: int = if clearance is Some { 1 } else { 0 };
            &&& ops[k] == SequentialOp::AdjoinMargin(collapsed_margin_spec(margin_block_start))
            &&& ops[k + 1] == SequentialOp::CollapseMargins
            &&& ops[k + 2] is AdvanceBlockPosition
        }),
{
}

/// The containing block that the children of a block enter is left again, as the first
/// thing after they are laid out.
pub proof fn lemma_containing_block_entered_and_left(
    clearance: Option<Au>,
    block_start_margin: CollapsedMargin,
    start_margin_can_collapse_with_children: bool,
    pbm: PaddingBorderMargin,
    effective_margin_inline_start: Au,
    children_inline_size: Au,
    block_size: Au,
    content_block_size: Au,
    end_margin_can_collapse_with_children: bool,
    margin_block_end: Au,
)
    ensures
        ({
            let start = block_start_ops_spec(clearance, block_start_margin, start_margin_can_collapse_with_children, pbm, effective_margin_inline_start, children_inline_size);
            let end = block_end_ops_spec(block_size, content_block_size, pbm, end_margin_can_collapse_with_children, margin_block_end);
            &&& start.last() is EnterContainingBlock
            &&& forall|i: int| 0 <= i < start.len() - 1 ==> !(#[trigger] start[i] is EnterContainingBlock)
            &&& end[0] == SequentialOp::LeaveContainingBlock
            &&& forall|i: int| 1 <= i < end.len() ==> !(#[trigger] end[i] is LeaveContainingBlock)
        }),
{
    let clear = if clearance is Some { seq![SequentialOp::CollapseMargins] } else { Seq::<SequentialOp>::empty() };
    let separate = if !start_margin_can_collapse_with_children {
        seq![SequentialOp::CollapseMargins]
    } else {
        Seq::<SequentialOp>::empty()
    };
    let start = block_start_ops_spec(clearance, block_start_margin, start_margin_can_collapse_with_children, pbm, effective_margin_inline_start, children_inline_size);
    assert forall|i: int| 0 <= i < start.len() - 1 implies !(#[trigger] start[i] is EnterContainingBlock) by {
        if i < clear.len() {
        } else if i == clear.len() {
        } else {
        }
    }
}

/// The containing block that an in-flow box makes for its children, with its padding,
/// border and margin and what its sizing resolved.
#[derive(Clone, Copy, Debug)]
pub struct ContainingBlockPaddingAndBorder {
    /// The inline size of the containing block for the children.
    pub children_inline_size: Au,
    /// The block size of the containing block for the children, where it is definite.
    pub children_block_size: Option<Au>,
    pub pbm: PaddingBorderMargin,
    pub depends_on_block_constraints: bool,
    pub available_block_size: Option<Au>,
    pub justify_self: AlignFlags,
}

/// The zero padding, border and margin.
pub open spec fn zero_pbm() -> PaddingBorderMargin {
    PaddingBorderMargin {
        padding: LogicalSides { inline_start: Au(0), inline_end: Au(0), block_start: Au(0), block_end: Au(0) },
        border: LogicalSides { inline_start: Au(0), inline_end: Au(0), block_start: Au(0), block_end: Au(0) },
        margin: LogicalSides {
            inline_start: AuOrAuto::LengthPercentage(Au(0)),
            inline_end: AuOrAuto::LengthPercentage(Au(0)),
            block_start: AuOrAuto::LengthPercentage(Au(0)),
            block_end: AuOrAuto::LengthPercentage(Au(0)),
        },
        padding_border_sums: LogicalVec2 { inline: Au(0), block: Au(0) },
    }
}

/// The containing block that an anonymous block box makes for its children. Anonymous block
/// boxes are ignored when resolving percentages (the closest non-anonymous ancestor is used
/// instead) and their non-inherited properties have their initial values: the children get
/// the same containing block, there is no padding, border or margin, nothing depends on block
/// constraints, no available block size is needed, and `justify-self` is `normal`.
pub fn anonymous_block_padding_and_border(
    containing_block_inline_size: Au,
    containing_block_block_size: Option<Au>,
) -> (r: ContainingBlockPaddingAndBorder)
    ensures
        r.children_inline_size == containing_block_inline_size,
        r.children_block_size == containing_block_block_size,
        r.pbm == zero_pbm(),
        !r.depends_on_block_constraints,
        r.available_block_size is None,
        r.justify_self == (AlignFlags { value: AlignKeyword::Normal, modifier: AlignModifier::Plain }),
{
    let zero_sides = LogicalSides { inline_start: Au::zero(), inline_end: Au::zero(), block_start: Au::zero(), block_end: Au::zero() };
    ContainingBlockPaddingAndBorder {
        children_inline_size: containing_block_inline_size,
        children_block_size: containing_block_block_size,
        pbm: PaddingBorderMargin {
            padding: zero_sides,
            border: zero_sides,
            margin: LogicalSides {
                inline_start: AuOrAuto::LengthPercentage(Au::zero()),
                inline_end: AuOrAuto::LengthPercentage(Au::zero()),
                block_start: AuOrAuto::LengthPercentage(Au::zero()),
                block_end: AuOrAuto::LengthPercentage(Au::zero()),
            },
            padding_border_sums: LogicalVec2 { inline: Au::zero(), block: Au::zero() },
        },
        depends_on_block_constraints: false,
        available_block_size: None,
        justify_self: AlignFlags { value: AlignKeyword::Normal, modifier: AlignModifier::Plain },
    }
}

} // verus!
