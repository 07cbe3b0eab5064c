//! Positions and selection ranges in display coordinates.

use vstd::prelude::*;

verus! {

/// A position in the wrapped, visual line-and-column space.
#[derive(Clone, Copy, PartialEq, Eq, Structural, Debug)]
pub struct DisplayPoint {
    pub row: u32,
    pub column: u32,
}

impl DisplayPoint {
    /// Positions are ordered by row, then by column.
    pub open spec fn le_spec(self, other: DisplayPoint) -> bool {
        self.row < other.row || (self.row == other.row && self.column <= other.column)
    }

    pub open spec fn lt_spec(self, other: DisplayPoint) -> bool {
        self.row < other.row || (self.row == other.row && self.column < other.column)
    }

    pub fn new(row: u32, column: u32) -> (r: DisplayPoint)
        ensures
            r.row == row,
            r.column == column,
    {
        DisplayPoint { row, column }
    }

    pub fn le(&self, other: &DisplayPoint) -> (r: bool)
        ensures
            r == self.le_spec(*other),
    {
        self.row < other.row || (self.row == other.row && self.column <= other.column)
    }

    pub fn lt(&self, other: &DisplayPoint) -> (r: bool)
        ensures
            r == self.lt_spec(*other),
    {
        self.row < other.row || (self.row == other.row && self.column < other.column)
    }
}

/// The half-open range `start..end` of display positions.
#[derive(Clone, Copy, PartialEq, Eq, Structural, Debug)]
pub struct DisplayRange {
    pub start: DisplayPoint,
    pub end: DisplayPoint,
}

impl DisplayRange {
    pub open spec fn contains_spec(self, p: DisplayPoint) -> bool {
        self.start.le_spec(p) && p.lt_spec(self.end)
    }

    /// Whether `p` lies in the range; an empty range holds no position.
    pub fn contains(&self, p: &DisplayPoint) -> (r: bool)
        ensures
            r == self.contains_spec(*p),
    {
        self.start.le(p) && p.lt(&self.end)
    }
}

/// One selected range; `reversed` says the head is at `start`.
#[derive(Clone, Copy, PartialEq, Eq, Structural, Debug)]
pub struct Selection {
    pub start: DisplayPoint,
    pub end: DisplayPoint,
    pub reversed: bool,
}

impl Selection {
    pub open spec fn wf(self) -> bool {
        self.start.le_spec(self.end)
    }

    pub open spec fn range_spec(self) -> DisplayRange {
        DisplayRange { start: self.start, end: self.end }
    }

    /// An empty selection at `p`: a plain cursor.
    pub open spec fn cursor_at(p: DisplayPoint) -> Selection {
        Selection { start: p, end: p, reversed: false }
    }
}

/// The granularity by which a pending selection grows while the pointer drags.
#[derive(Clone, Copy, PartialEq, Eq, Structural, Debug)]
pub enum SelectMode {
    Character,
    Word,
    Line,
    All,
}

/// A selection that is still being made and is not yet one of the disjoint ones.
#[derive(Clone, Copy, PartialEq, Eq, Structural, Debug)]
pub struct PendingSelection {
    pub selection: Selection,
    pub mode: SelectMode,
}

/// The committed, non-overlapping selections in order, and at most one pending selection.
#[derive(Clone, Debug)]
pub struct SelectionsCollection {
    pub disjoint: Vec<Selection>,
    pub pending: Option<PendingSelection>,
}

impl SelectionsCollection {
    /// Each range is ordered, and the disjoint ones follow one another without overlap.
    pub open spec fn wf(self) -> bool {
        &&& forall|i: int| 0 <= i < self.disjoint@.len() ==> (#[trigger] self.disjoint@[i]).wf()
        &&& forall|i: int, j: int|
            0 <= i < j < self.disjoint@.len() ==> (#[trigger] self.disjoint@[i]).end.le_spec(
                #[trigger] self.disjoint@[j].start,
            )
        &&& match self.pending {
            Some(p) => p.selection.wf(),
            None => true,
        }
    }

    /// The ranges of the disjoint selections in order, then that of the pending one.
    pub open spec fn ranges(self) -> Seq<DisplayRange> {
        self.disjoint@.map_values(|s: Selection| s.range_spec()) + match self.pending {
            Some(p) => seq![p.selection.range_spec()],
            None => Seq::<DisplayRange>::empty(),
        }
    }

    /// Whether some selection, disjoint or pending, holds `p`.
    pub open spec fn holds_point(self, p: DisplayPoint) -> bool {
        exists|i: int| 0 <= i < self.ranges().len() && (#[trigger] self.ranges()[i]).contains_spec(p)
    }

    /// Nothing selected and no cursor.
    pub fn new() -> (r: SelectionsCollection)
        ensures
            r.disjoint@.len() == 0,
            r.pending.is_none(),
            r.wf(),
    {
        SelectionsCollection { disjoint: Vec::new(), pending: None }
    }

    /// Drops every committed selection and keeps the pending one.
    pub fn clear_disjoint(&mut self)
        ensures
            final(self).disjoint@.len() == 0,
            final(self).pending == old(self).pending,
    {
        self.disjoint = Vec::new();
    }

    /// Makes the range `start..end` the pending selection, grown by `mode`.
    pub fn set_pending_range(&mut self, start: DisplayPoint, end: DisplayPoint, mode: SelectMode)
        ensures
            final(self).disjoint@ == old(self).disjoint@,
            final(self).pending == Some(
                PendingSelection { selection: Selection { start, end, reversed: false }, mode },
            ),
    {
        self.pending = Some(
            PendingSelection { selection: Selection { start, end, reversed: false }, mode },
        );
    }
}

/// The display ranges of all selections: the disjoint ones in order, then the pending one.
pub fn display_ranges(selections: &SelectionsCollection) -> (r: Vec<DisplayRange>)
    ensures
        r@ == selections.ranges(),
{
    let mut r: Vec<DisplayRange> = Vec::new();
    let mut i: usize = 0;
    while i < selections.disjoint.len()
        invariant
            i <= selections.disjoint@.len(),
            r@ == selections.disjoint@.subrange(0, i as int).map_values(
                |s: Selection| s.range_spec(),
            ),
        decreases selections.disjoint@.len() - i,
    {
        let s = selections.disjoint[i];
        r.push(DisplayRange { start: s.start, end: s.end });
        i = i + 1;
        assert(r@ =~= selections.disjoint@.subrange(0, i as int).map_values(
            |s: Selection| s.range_spec(),
        ));
    }
    assert(selections.disjoint@.subrange(0, i as int) =~= selections.disjoint@);
    if let Some(p) = selections.pending {
        r.push(DisplayRange { start: p.selection.start, end: p.selection.end });
    }
    assert(r@ =~= selections.ranges());
    r
}

/// Whether one of `ranges` holds `p`.
pub fn any_range_contains(ranges: &Vec<DisplayRange>, p: &DisplayPoint) -> (r: bool)
    ensures
        r == exists|i: int| 0 <= i < ranges@.len() && (#[trigger] ranges@[i]).contains_spec(*p),
{
    let mut i: usize = 0;
    while i < ranges.len()
        invariant
            i <= ranges@.len(),
            forall|k: int| 0 <= k < i ==> !(#[trigger] ranges@[k]).contains_spec(*p),
        decreases ranges@.len() - i,
    {
        if ranges[i].contains(p) {
            return true;
        }
        i = i + 1;
    }
    false
}

/// Whether some selection, disjoint or pending, holds `p`.
pub fn selections_hold_point(selections: &SelectionsCollection, p: &DisplayPoint) -> (r: bool)
    ensures
        r == selections.holds_point(*p),
{
    let ranges = display_ranges(selections);
    any_range_contains(&ranges, p)
}

} // verus!
