//! Selection model with anchors, and how anchors follow structural table edits.
use vstd::prelude::*;

verus! {

#[derive(Debug, Clone, Copy, PartialEq, Eq, Structural)]
pub enum Anchor {
    Text { node_index: usize, char_offset: usize },
    TableCell { table_node_index: usize, row: usize, col: usize, char_offset: usize },
}

#[derive(Debug, Clone, Copy, PartialEq, Eq, Structural)]
pub struct SelectionRange {
    pub start: Anchor,
    pub end: Anchor,
}

/// Where a position lands after the element at `from` is moved to `to`
/// (remove, then reinsert): the moved one goes to `to`, those strictly
/// between shift by one towards `from`.
pub open spec fn moved_index(x: int, from: int, to: int) -> int {
    if x == from {
        to
    } else if from < to && from < x <= to {
        x - 1
    } else if to < from && to <= x < from {
        x + 1
    } else {
        x
    }
}

/// An anchor after a row is inserted at `at` in table `tni`.
pub open spec fn row_insert_spec(a: Anchor, tni: usize, at: usize) -> Anchor {
    match a {
        Anchor::TableCell { table_node_index, row, col, char_offset } => {
            if table_node_index == tni && row >= at {
                Anchor::TableCell { table_node_index, row: (row + 1) as usize, col, char_offset }
            } else {
                a
            }
        },
        Anchor::Text { .. } => a,
    }
}

/// An anchor after a column is inserted at `at` in table `tni`.
pub open spec fn col_insert_spec(a: Anchor, tni: usize, at: usize) -> Anchor {
    match a {
        Anchor::TableCell { table_node_index, row, col, char_offset } => {
            if table_node_index == tni && col >= at {
                Anchor::TableCell { table_node_index, row, col: (col + 1) as usize, char_offset }
            } else {
                a
            }
        },
        Anchor::Text { .. } => a,
    }
}

/// An anchor after a row of table `tni` is moved from `from` to `to`.
pub open spec fn row_move_spec(a: Anchor, tni: usize, from: usize, to: usize) -> Anchor {
    match a {
        Anchor::TableCell { table_node_index, row, col, char_offset } => {
            if table_node_index == tni {
                Anchor::TableCell {
                    table_node_index,
                    row: moved_index(row as int, from as int, to as int) as usize,
                    col,
                    char_offset,
                }
            } else {
                a
            }
        },
        Anchor::Text { .. } => a,
    }
}

/// An anchor after a column of table `tni` is moved from `from` to `to`.
pub open spec fn col_move_spec(a: Anchor, tni: usize, from: usize, to: usize) -> Anchor {
    match a {
        Anchor::TableCell { table_node_index, row, col, char_offset } => {
            if table_node_index == tni {
                Anchor::TableCell {
                    table_node_index,
                    row,
                    col: moved_index(col as int, from as int, to as int) as usize,
                    char_offset,
                }
            } else {
                a
            }
        },
        Anchor::Text { .. } => a,
    }
}

pub open spec fn min_u(a: usize, b: usize) -> usize {
    if a <= b {
        a
    } else {
        b
    }
}

pub open spec fn max_u(a: usize, b: usize) -> usize {
    if a >= b {
        a
    } else {
        b
    }
}

/// An anchor after the rectangle spanned by corners (sr, sc) and (er, ec) of
/// table `tni` is merged: anchors inside collapse onto the top-left cell.
pub open spec fn merge_spec(a: Anchor, tni: usize, sr: usize, sc: usize, er: usize, ec: usize) -> Anchor {
    match a {
        Anchor::TableCell { table_node_index, row, col, char_offset } => {
            if table_node_index == tni && min_u(sr, er) <= row <= max_u(sr, er) && min_u(sc, ec)
                <= col <= max_u(sc, ec) {
                Anchor::TableCell {
                    table_node_index,
                    row: min_u(sr, er),
                    col: min_u(sc, ec),
                    char_offset,
                }
            } else {
                a
            }
        },
        Anchor::Text { .. } => a,
    }
}

/// Anchors at the largest representable row or column cannot be shifted further.
pub open spec fn shiftable(a: Anchor) -> bool {
    match a {
        Anchor::TableCell { row, col, .. } => row < usize::MAX && col < usize::MAX,
        Anchor::Text { .. } => true,
    }
}

fn map_anchor_row_insert(anchor: &mut Anchor, table_node_index: usize, at_row: usize)
    requires
        shiftable(*old(anchor)),
    ensures
        *final(anchor) == row_insert_spec(*old(anchor), table_node_index, at_row),
{
    if let Anchor::TableCell { table_node_index: tni, row, .. } = anchor {
        if *tni == table_node_index && *row >= at_row {
            *row += 1;
        }
    }
}

fn map_anchor_col_insert(anchor: &mut Anchor, table_node_index: usize, at_col: usize)
    requires
        shiftable(*old(anchor)),
    ensures
        *final(anchor) == col_insert_spec(*old(anchor), table_node_index, at_col),
{
    if let Anchor::TableCell { table_node_index: tni, col, .. } = anchor {
        if *tni == table_node_index && *col >= at_col {
            *col += 1;
        }
    }
}

fn moved(x: usize, from: usize, to: usize) -> (r: usize)
    ensures
        r as int == moved_index(x as int, from as int, to as int),
{
    if x == from {
        to
    } else if from < to {
        if x > from && x <= to {
            x - 1
        } else {
            x
        }
    } else if to < from {
        if x >= to && x < from {
            x + 1
        } else {
            x
        }
    } else {
        x
    }
}

fn map_anchor_row_move(anchor: &mut Anchor, table_node_index: usize, from: usize, to: usize)
    ensures
        *final(anchor) == row_move_spec(*old(anchor), table_node_index, from, to),
{
    if let Anchor::TableCell { table_node_index: tni, row, .. } = anchor {
        if *tni == table_node_index {
            *row = moved(*row, from, to);
        }
    }
}

fn map_anchor_col_move(anchor: &mut Anchor, table_node_index: usize, from: usize, to: usize)
    ensures
        *final(anchor) == col_move_spec(*old(anchor), table_node_index, from, to),
{
    if let Anchor::TableCell { table_node_index: tni, col, .. } = anchor {
        if *tni == table_node_index {
            *col = moved(*col, from, to);
        }
    }
}

fn map_anchor_merge(
    anchor: &mut Anchor,
    table_node_index: usize,
    sr: usize,
    sc: usize,
    er: usize,
    ec: usize,
)
    ensures
        *final(anchor) == merge_spec(*old(anchor), table_node_index, sr, sc, er, ec),
{
    if let Anchor::TableCell { table_node_index: tni, row, col, .. } = anchor {
        if *tni == table_node_index {
            let min_r = if sr <= er {
                sr
            } else {
                er
            };
            let max_r = if sr >= er {
                sr
            } else {
                er
            };
            let min_c = if sc <= ec {
                sc
            } else {
                ec
            };
            let max_c = if sc >= ec {
                sc
            } else {
                ec
            };
            if *row >= min_r && *row <= max_r && *col >= min_c && *col <= max_c {
                *row = min_r;
                *col = min_c;
            }
        }
    }
}

impl SelectionRange {
    /// Ranges may span nodes; their ends are kept in the order given.
    pub fn normalize(&mut self)
        ensures
            *final(self) == *old(self),
    {
    }

    pub fn map_table_row_insert(&mut self, table_node_index: usize, at_row: usize)
        requires
            shiftable(old(self).start),
            shiftable(old(self).end),
        ensures
            final(self).start == row_insert_spec(old(self).start, table_node_index, at_row),
            final(self).end == row_insert_spec(old(self).end, table_node_index, at_row),
    {
        map_anchor_row_insert(&mut self.start, table_node_index, at_row);
        map_anchor_row_insert(&mut self.end, table_node_index, at_row);
    }

    pub fn map_table_col_insert(&mut self, table_node_index: usize, at_col: usize)
        requires
            shiftable(old(self).start),
            shiftable(old(self).end),
        ensures
            final(self).start == col_insert_spec(old(self).start, table_node_index, at_col),
            final(self).end == col_insert_spec(old(self).end, table_node_index, at_col),
    {
        map_anchor_col_insert(&mut self.start, table_node_index, at_col);
        map_anchor_col_insert(&mut self.end, table_node_index, at_col);
    }

    pub fn map_table_row_move(&mut self, table_node_index: usize, from: usize, to: usize)
        ensures
            final(self).start == row_move_spec(old(self).start, table_node_index, from, to),
            final(self).end == row_move_spec(old(self).end, table_node_index, from, to),
    {
        map_anchor_row_move(&mut self.start, table_node_index, from, to);
        map_anchor_row_move(&mut self.end, table_node_index, from, to);
    }

    pub fn map_table_col_move(&mut self, table_node_index: usize, from: usize, to: usize)
        ensures
            final(self).start == col_move_spec(old(self).start, table_node_index, from, to),
            final(self).end == col_move_spec(old(self).end, table_node_index, from, to),
    {
        map_anchor_col_move(&mut self.start, table_node_index, from, to);
        map_anchor_col_move(&mut self.end, table_node_index, from, to);
    }

    pub fn map_table_merge(
        &mut self,
        table_node_index: usize,
        sr: usize,
        sc: usize,
        er: usize,
        ec: usize,
    )
        ensures
            final(self).start == merge_spec(old(self).start, table_node_index, sr, sc, er, ec),
            final(self).end == merge_spec(old(self).end, table_node_index, sr, sc, er, ec),
    {
        map_anchor_merge(&mut self.start, table_node_index, sr, sc, er, ec);
        map_anchor_merge(&mut self.end, table_node_index, sr, sc, er, ec);
    }

    /// Splitting a cell needs no remapping: anchors inside the former master
    /// cell stay valid.
    pub fn map_table_split(&mut self, _table_node_index: usize, _r: usize, _c: usize)
        ensures
            *final(self) == *old(self),
    {
    }
}

/// Inserting a row at `k` moves every anchor of that table at row `k` or
/// below down by one row, and leaves the rows above `k`, other tables and
/// text anchors where they were.
pub proof fn lemma_anchor_row_insert(a: Anchor, tni: usize, k: usize)
    requires
        shiftable(a),
    ensures
        match a {
            Anchor::TableCell { table_node_index, row, col, char_offset } => {
                &&& (table_node_index == tni && row >= k) ==> row_insert_spec(a, tni, k)
                    == (Anchor::TableCell { table_node_index, row: (row + 1) as usize, col, char_offset })
                &&& (table_node_index != tni || row < k) ==> row_insert_spec(a, tni, k) == a
            },
            Anchor::Text { .. } => row_insert_spec(a, tni, k) == a,
        },
{
}

/// Moving a row from `from` to `to` is a permutation of the rows: two
/// distinct rows of the table never land on the same row, and every row
/// within the table stays within it.
pub proof fn lemma_anchor_row_move(x: usize, y: usize, from: usize, to: usize, n: usize)
    requires
        x < n,
        y < n,
        from < n,
        to < n,
        x != y,
    ensures
        moved_index(x as int, from as int, to as int) != moved_index(y as int, from as int, to as int),
        0 <= moved_index(x as int, from as int, to as int) < n,
{
}

} // verus!
