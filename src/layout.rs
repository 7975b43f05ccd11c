use vstd::prelude::*;
use ratatui::layout::{Constraint, Direction, Layout, Rect};

verus! {

/// A rectangle of the screen, in terminal cells.
#[derive(Debug, Clone, Copy, PartialEq, Eq, Structural)]
pub struct CellRect {
    pub x: u16,
    pub y: u16,
    pub width: u16,
    pub height: u16,
}

impl CellRect {
    pub open spec fn view(&self) -> (u16, u16, u16, u16) {
        (self.x, self.y, self.width, self.height)
    }

    pub fn new(x: u16, y: u16, width: u16, height: u16) -> (r: Self)
        ensures
            r@ == (x, y, width, height),
    {
        CellRect { x, y, width, height }
    }
}

/// The segments that the terminal layout engine gives when `area` is cut
/// into `parts` equal shares, top to bottom when `vertical`, else left to right.
pub uninterp spec fn equal_split(area: (u16, u16, u16, u16), parts: nat, vertical: bool) -> Seq<(u16, u16, u16, u16)>;

/// Relies on ratatui's `Layout::split`, which returns one segment per
/// constraint; here `parts` constraints of `Ratio(1, parts)`.
#[verifier::external_body]
fn split_equal(area: CellRect, parts: usize, vertical: bool) -> (r: Vec<CellRect>)
    requires
        1 <= parts <= u32::MAX,
    ensures
        r@.len() == parts,
        r@.len() == equal_split(area@, parts as nat, vertical).len(),
        forall|i: int| 0 <= i < parts ==> #[trigger] r@[i]@ == equal_split(area@, parts as nat, vertical)[i],
{
    let direction = if vertical { Direction::Vertical } else { Direction::Horizontal };
    let rects = Layout::default()
        .direction(direction)
        .constraints(vec![Constraint::Ratio(1, parts as u32); parts])
        .split(Rect { x: area.x, y: area.y, width: area.width, height: area.height });
    rects.iter().map(|c| CellRect { x: c.x, y: c.y, width: c.width, height: c.height }).collect()
}

/// The largest row among the positions; zero for none.
pub open spec fn max_row(ps: Seq<(usize, usize)>) -> nat
    decreases ps.len(),
{
    if ps.len() == 0 {
        0
    } else {
        let m = max_row(ps.drop_last());
        if ps.last().0 > m { ps.last().0 as nat } else { m }
    }
}

/// The largest column among the positions; zero for none.
pub open spec fn max_col(ps: Seq<(usize, usize)>) -> nat
    decreases ps.len(),
{
    if ps.len() == 0 {
        0
    } else {
        let m = max_col(ps.drop_last());
        if ps.last().1 > m { ps.last().1 as nat } else { m }
    }
}

/// The maxima bound every position, and each is reached by some position
/// unless there are none.
pub proof fn lemma_grid_bounds(ps: Seq<(usize, usize)>)
    ensures
        forall|i: int| 0 <= i < ps.len() ==> #[trigger] ps[i].0 <= max_row(ps) && ps[i].1 <= max_col(ps),
        ps.len() == 0 ==> max_row(ps) == 0 && max_col(ps) == 0,
        ps.len() > 0 ==> exists|i: int| 0 <= i < ps.len() && #[trigger] ps[i].0 == max_row(ps),
        ps.len() > 0 ==> exists|i: int| 0 <= i < ps.len() && #[trigger] ps[i].1 == max_col(ps),
    decreases ps.len(),
{
    if ps.len() > 0 {
        let rest = ps.drop_last();
        lemma_grid_bounds(rest);
        assert forall|i: int| 0 <= i < ps.len() implies #[trigger] ps[i].0 <= max_row(ps) && ps[i].1 <= max_col(ps) by {
            if i < rest.len() {
                assert(rest[i] == ps[i]);
            }
        }
        let last = ps.len() - 1;
        if ps.last().0 > max_row(rest) {
            assert(ps[last].0 == max_row(ps));
        } else if rest.len() > 0 {
            let j = choose|j: int| 0 <= j < rest.len() && #[trigger] rest[j].0 == max_row(rest);
            assert(ps[j].0 == max_row(ps));
        } else {
            assert(ps[last].0 == max_row(ps));
        }
        if ps.last().1 > max_col(rest) {
            assert(ps[last].1 == max_col(ps));
        } else if rest.len() > 0 {
            let j = choose|j: int| 0 <= j < rest.len() && #[trigger] rest[j].1 == max_col(rest);
            assert(ps[j].1 == max_col(ps));
        } else {
            assert(ps[last].1 == max_col(ps));
        }
    }
}

/// The grid's bounds: the largest row and the largest column among the
/// positions, `(0, 0)` when there are none.
pub fn grid_dimensions(positions: &Vec<(usize, usize)>) -> (r: (usize, usize))
    ensures
        r.0 == max_row(positions@),
        r.1 == max_col(positions@),
{
    let mut mr: usize = 0;
    let mut mc: usize = 0;
    let mut i: usize = 0;
    while i < positions.len()
        invariant
            i <= positions@.len(),
            mr == max_row(positions@.subrange(0, i as int)),
            mc == max_col(positions@.subrange(0, i as int)),
        decreases positions@.len() - i,
    {
        let (row, col) = positions[i];
        proof {
            let pre = positions@.subrange(0, i as int + 1);
            assert(pre.drop_last() =~= positions@.subrange(0, i as int));
            assert(pre.last() == positions@[i as int]);
        }
        if row > mr {
            mr = row;
        }
        if col > mc {
            mc = col;
        }
        i = i + 1;
    }
    assert(positions@.subrange(0, i as int) =~= positions@);
    (mr, mc)
}

/// The cell of the grid at `pos` when `area` is cut into `rows` equal bands,
/// each cut into `cols` equal cells.
pub open spec fn grid_cell(area: (u16, u16, u16, u16), rows: nat, cols: nat, pos: (usize, usize)) -> (u16, u16, u16, u16) {
    equal_split(equal_split(area, rows, true)[pos.0 as int], cols, false)[pos.1 as int]
}

/// The lines left for content inside a bordered cell: the height less the
/// top and bottom border, none when the cell is shorter than that.
pub fn inner_height(area: CellRect) -> (r: usize)
    ensures
        r == if area.height >= 2 { area.height - 2 } else { 0 },
{
    if area.height >= 2 {
        (area.height - 2) as usize
    } else {
        0
    }
}

/// Where one panel is drawn, and whether it is drawn as selected.
#[derive(Debug, Clone, Copy, PartialEq, Eq, Structural)]
pub struct Placement {
    pub panel: usize,
    pub area: CellRect,
    pub selected: bool,
}

/// Places every panel in its grid cell. The screen is cut into
/// `max_row + 1` equal bands and each band into `max_col + 1` equal cells;
/// panels that share a position share a cell, the later one drawn last.
pub fn plan_grid(area: CellRect, positions: &Vec<(usize, usize)>, selected: usize) -> (r: Vec<Placement>)
    requires
        forall|i: int| 0 <= i < positions@.len() ==> (#[trigger] positions@[i]).0 < u32::MAX && positions@[i].1 < u32::MAX,
    ensures
        r@.len() == positions@.len(),
        forall|i: int| 0 <= i < r@.len() ==> {
            &&& (#[trigger] r@[i]).panel == i
            &&& r@[i].selected == (i == selected)
            &&& r@[i].area@ == grid_cell(area@, max_row(positions@) + 1, max_col(positions@) + 1, positions@[i])
        },
{
    let mut out: Vec<Placement> = Vec::new();
    if positions.len() == 0 {
        return out;
    }
    let (mr, mc) = grid_dimensions(positions);
    proof {
        lemma_grid_bounds(positions@);
        let j = choose|j: int| 0 <= j < positions@.len() && #[trigger] positions@[j].0 == max_row(positions@);
        let k = choose|k: int| 0 <= k < positions@.len() && #[trigger] positions@[k].1 == max_col(positions@);
        assert(positions@[j].0 < u32::MAX);
        assert(positions@[k].1 < u32::MAX);
    }
    let rows = split_equal(area, mr + 1, true);
    let mut i: usize = 0;
    while i < positions.len()
        invariant
            i <= positions@.len(),
            out@.len() == i,
            mr == max_row(positions@),
            mc == max_col(positions@),
            mc + 1 <= u32::MAX,
            rows@.len() == mr + 1,
            forall|k: int| 0 <= k <= mr ==> #[trigger] rows@[k]@ == equal_split(area@, (mr + 1) as nat, true)[k],
            forall|k: int| 0 <= k < positions@.len() ==> #[trigger] positions@[k].0 <= mr && positions@[k].1 <= mc,
            forall|k: int| 0 <= k < i ==> {
                &&& (#[trigger] out@[k]).panel == k
                &&& out@[k].selected == (k == selected)
                &&& out@[k].area@ == grid_cell(area@, max_row(positions@) + 1, max_col(positions@) + 1, positions@[k])
            },
        decreases positions@.len() - i,
    {
        let (row, col) = positions[i];
        let band = rows[row];
        let cols = split_equal(band, mc + 1, false);
        let cell = cols[col];
        out.push(Placement { panel: i, area: cell, selected: i == selected });
        i = i + 1;
    }
    out
}

} // verus!
