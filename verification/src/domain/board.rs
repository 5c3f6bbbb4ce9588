//! The 8x8 board: cells, legality queries, move application with flips,
//! turn advancement, and end-of-game evaluation.

use crate::domain::directions::{dir_at, direction_at};
use crate::domain::player::Player;
use vstd::prelude::*;

verus! {

/// One cell of the grid: empty, or holding a piece of one color.
#[derive(Copy, Clone, PartialEq, Eq, Structural, Debug)]
pub enum Case {
    Empty,
    Piece(ColorPiece),
}

/// The color of a piece.
#[derive(Copy, Clone, PartialEq, Eq, Structural, Debug)]
pub enum ColorPiece {
    White,
    Black,
}

/// The identity of a side; each game binds both identities to a color.
#[derive(Copy, Clone, PartialEq, Eq, Structural, Debug)]
pub enum PlayerId {
    Player1,
    Player2,
}

/// The color opposing `c`.
pub open spec fn opposite(c: ColorPiece) -> ColorPiece {
    match c {
        ColorPiece::White => ColorPiece::Black,
        ColorPiece::Black => ColorPiece::White,
    }
}

/// The identity other than `p`.
pub open spec fn other(p: PlayerId) -> PlayerId {
    match p {
        PlayerId::Player1 => PlayerId::Player2,
        PlayerId::Player2 => PlayerId::Player1,
    }
}

/// What flipping does to a cell: pieces change color, empty cells stay empty.
pub open spec fn flipped(c: Case) -> Case {
    match c {
        Case::Empty => Case::Empty,
        Case::Piece(col) => Case::Piece(opposite(col)),
    }
}

impl Case {
    /// Turn the piece in this cell over to the opposing color.
    pub fn flip(&mut self)
        ensures
            *final(self) == flipped(*old(self)),
    {
        *self = match self {
            Case::Empty => Case::Empty,
            Case::Piece(ColorPiece::White) => Case::Piece(ColorPiece::Black),
            Case::Piece(ColorPiece::Black) => Case::Piece(ColorPiece::White),
        }
    }

    /// A one-character rendering of the cell.
    pub fn to_char(&self) -> (c: char)
        ensures
            c == match *self {
                Case::Empty => ' ',
                Case::Piece(ColorPiece::White) => 'W',
                Case::Piece(ColorPiece::Black) => 'B',
            },
    {
        match self {
            Case::Empty => ' ',
            Case::Piece(ColorPiece::White) => 'W',
            Case::Piece(ColorPiece::Black) => 'B',
        }
    }
}

/// Whether `(x, y)` addresses a cell of the 8x8 grid.
pub open spec fn in_bounds(x: int, y: int) -> bool {
    0 <= x < 8 && 0 <= y < 8
}

/// The index of cell `(x, y)` in the row-major 64-cell grid.
pub open spec fn cell_index(x: int, y: int) -> int {
    x * 8 + y
}

/// An upper bound on how many unit steps in direction `(dx, dy)` can stay
/// on the board when starting from `(x, y)`; it shrinks at every step and
/// serves as the termination measure of the directional scans.
pub open spec fn ray_bound(x: int, y: int, dx: int, dy: int) -> int {
    let bx = if dx > 0 {
        8 - x
    } else if dx < 0 {
        x + 1
    } else {
        17
    };
    let by = if dy > 0 {
        8 - y
    } else if dy < 0 {
        y + 1
    } else {
        17
    };
    if bx < by {
        bx
    } else {
        by
    }
}

/// The maximal run of cells holding the opponent of `own` that starts one
/// step from `(x, y)` in direction `(dx, dy)` and stays on the board,
/// listed from the origin outward.
pub open spec fn opp_run(g: Seq<Case>, x: int, y: int, dx: int, dy: int, own: ColorPiece) -> Seq<
    (usize, usize),
>
    decreases ray_bound(x, y, dx, dy),
{
    if dx == 0 && dy == 0 {
        Seq::empty()
    } else if in_bounds(x + dx, y + dy) && g[cell_index(x + dx, y + dy)] == Case::Piece(
        opposite(own),
    ) {
        seq![(((x + dx) as usize), ((y + dy) as usize))] + opp_run(g, x + dx, y + dy, dx, dy, own)
    } else {
        Seq::empty()
    }
}

/// Whether placing a piece of color `own` at `(x, y)` captures a line in
/// direction `(dx, dy)`: a nonempty opponent run immediately adjacent,
/// terminated on the board by a cell of color `own`.
pub open spec fn dir_captures(
    g: Seq<Case>,
    x: int,
    y: int,
    dx: int,
    dy: int,
    own: ColorPiece,
) -> bool {
    let run = opp_run(g, x, y, dx, dy, own);
    &&& run.len() > 0
    &&& {
        let last = run[run.len() - 1];
        &&& in_bounds(last.0 + dx, last.1 + dy)
        &&& g[cell_index(last.0 + dx, last.1 + dy)] == Case::Piece(own)
    }
}

/// The cells flipped in direction `(dx, dy)` by a placement at `(x, y)`:
/// the whole opponent run when it is captured, nothing otherwise.
pub open spec fn dir_flips(g: Seq<Case>, x: int, y: int, dx: int, dy: int, own: ColorPiece) -> Seq<
    (usize, usize),
> {
    if dir_captures(g, x, y, dx, dy, own) {
        opp_run(g, x, y, dx, dy, own)
    } else {
        Seq::empty()
    }
}

/// `dir_captures` along the `i`-th direction of the fixed enumeration.
pub open spec fn captures_dir_i(g: Seq<Case>, x: int, y: int, i: int, own: ColorPiece) -> bool {
    dir_captures(g, x, y, dir_at(i).0, dir_at(i).1, own)
}

/// `dir_flips` along the `i`-th direction of the fixed enumeration.
pub open spec fn flips_dir_i(g: Seq<Case>, x: int, y: int, i: int, own: ColorPiece) -> Seq<
    (usize, usize),
> {
    dir_flips(g, x, y, dir_at(i).0, dir_at(i).1, own)
}

/// The flips of a placement at `(x, y)`, restricted to the first `k`
/// directions of the fixed enumeration, in direction-major order.
pub open spec fn flips_upto(g: Seq<Case>, x: int, y: int, own: ColorPiece, k: int) -> Seq<
    (usize, usize),
>
    decreases k,
{
    if k <= 0 {
        Seq::empty()
    } else {
        flips_upto(g, x, y, own, k - 1) + flips_dir_i(g, x, y, k - 1, own)
    }
}

/// Every cell flipped by a placement at `(x, y)`, direction-major, each
/// direction's run listed from the origin outward.
pub open spec fn move_flips(g: Seq<Case>, x: int, y: int, own: ColorPiece) -> Seq<(usize, usize)> {
    flips_upto(g, x, y, own, 8)
}

/// Whether a placement at `(x, y)` captures a line in some direction.
pub open spec fn any_capture(g: Seq<Case>, x: int, y: int, own: ColorPiece) -> bool {
    ||| captures_dir_i(g, x, y, 0, own)
    ||| captures_dir_i(g, x, y, 1, own)
    ||| captures_dir_i(g, x, y, 2, own)
    ||| captures_dir_i(g, x, y, 3, own)
    ||| captures_dir_i(g, x, y, 4, own)
    ||| captures_dir_i(g, x, y, 5, own)
    ||| captures_dir_i(g, x, y, 6, own)
    ||| captures_dir_i(g, x, y, 7, own)
}

/// A legal destination for `own`: an empty board cell whose occupation
/// captures at least one opponent line.
pub open spec fn placeable(g: Seq<Case>, x: int, y: int, own: ColorPiece) -> bool {
    &&& in_bounds(x, y)
    &&& g[cell_index(x, y)] is Empty
    &&& any_capture(g, x, y, own)
}

/// The legal destinations for `own` among the first `n` cells of the
/// scanning order (x fastest, then y), in that order.
pub open spec fn avail_upto(g: Seq<Case>, own: ColorPiece, n: int) -> Seq<(usize, usize)>
    decreases n,
{
    if n <= 0 {
        Seq::empty()
    } else {
        let x = (n - 1) % 8;
        let y = (n - 1) / 8;
        avail_upto(g, own, n - 1) + if placeable(g, x, y, own) {
            seq![((x as usize), (y as usize))]
        } else {
            Seq::empty()
        }
    }
}

/// All legal destinations for `own`, in scanning order.
pub open spec fn available_moves(g: Seq<Case>, own: ColorPiece) -> Seq<(usize, usize)> {
    avail_upto(g, own, 64)
}

/// How many cells of `g` hold a piece of color `c`.
pub open spec fn count_color(g: Seq<Case>, c: ColorPiece) -> nat
    decreases g.len(),
{
    if g.len() == 0 {
        0
    } else {
        count_color(g.drop_last(), c) + if g.last() == Case::Piece(c) {
            1nat
        } else {
            0nat
        }
    }
}

/// How many cells of `g` hold a piece of either color.
pub open spec fn count_occupied(g: Seq<Case>) -> nat
    decreases g.len(),
{
    if g.len() == 0 {
        0
    } else {
        count_occupied(g.drop_last()) + if g.last() is Piece {
            1nat
        } else {
            0nat
        }
    }
}

/// Whether no empty cell remains on the grid.
pub open spec fn grid_full(g: Seq<Case>) -> bool {
    forall|k: int| 0 <= k < 64 ==> g[k] is Piece
}

/// `g` with every cell listed in `coords` set to a piece of color `c`.
pub open spec fn set_all(g: Seq<Case>, coords: Seq<(usize, usize)>, c: ColorPiece) -> Seq<Case>
    decreases coords.len(),
{
    if coords.len() == 0 {
        g
    } else {
        let last = coords.last();
        set_all(g, coords.drop_last(), c).update(
            cell_index(last.0 as int, last.1 as int),
            Case::Piece(c),
        )
    }
}

/// The grid after a legal placement of `own` at `(x, y)`: the captured
/// cells and the origin all hold pieces of color `own`.
pub open spec fn grid_after_move(g: Seq<Case>, x: int, y: int, own: ColorPiece) -> Seq<Case> {
    set_all(g, move_flips(g, x, y, own), own).update(cell_index(x, y), Case::Piece(own))
}

/// The grid of a fresh game: empty but for the central diamond, white on
/// the main diagonal and black on the other.
pub open spec fn init_grid() -> Seq<Case> {
    Seq::new(64, |i: int| Case::Empty).update(27, Case::Piece(ColorPiece::White)).update(
        28,
        Case::Piece(ColorPiece::Black),
    ).update(35, Case::Piece(ColorPiece::Black)).update(36, Case::Piece(ColorPiece::White))
}

/// The mathematical content of a board: its grid, the side to move, and
/// the color bound to each side.
pub struct BoardView {
    pub grid: Seq<Case>,
    pub current: PlayerId,
    pub player1_color: ColorPiece,
    pub player2_color: ColorPiece,
}

impl BoardView {
    /// A structurally valid board: 64 cells, and the two sides play
    /// opposing colors.
    pub open spec fn wf(self) -> bool {
        &&& self.grid.len() == 64
        &&& self.player2_color == opposite(self.player1_color)
    }

    /// The color of the side to move.
    pub open spec fn current_color(self) -> ColorPiece {
        match self.current {
            PlayerId::Player1 => self.player1_color,
            PlayerId::Player2 => self.player2_color,
        }
    }

}

/// The board after a placement attempt by the side to move at `(x, y)`:
/// unchanged when the destination is not a legal one; otherwise the grid
/// gains the captured line(s) and the origin, and the turn passes to the
/// opponent unless the opponent is left without a legal destination, in
/// which case it reverts to the mover (single-level auto-pass).
pub open spec fn board_after_move(pre: BoardView, x: int, y: int) -> BoardView {
    if placeable(pre.grid, x, y, pre.current_color()) {
        let own = pre.current_color();
        let g2 = grid_after_move(pre.grid, x, y, own);
        BoardView {
            grid: g2,
            current: if available_moves(g2, opposite(own)).len() > 0 {
                other(pre.current)
            } else {
                pre.current
            },
            player1_color: pre.player1_color,
            player2_color: pre.player2_color,
        }
    } else {
        pre
    }
}

/// The flip list reported by a placement attempt: the captured cells in
/// direction-major order on success, nothing otherwise.
pub open spec fn move_result(pre: BoardView, x: int, y: int) -> Option<Seq<(usize, usize)>> {
    if placeable(pre.grid, x, y, pre.current_color()) {
        Some(move_flips(pre.grid, x, y, pre.current_color()))
    } else {
        None
    }
}

/// The view of an optional flip list.
pub open spec fn flips_view(r: Option<Vec<(usize, usize)>>) -> Option<Seq<(usize, usize)>> {
    match r {
        Some(v) => Some(v@),
        None => None,
    }
}

/// The full contract of a placement attempt at `(x, y)`: how the board
/// changed and what was returned.
pub open spec fn place_post(
    pre: BoardView,
    post: BoardView,
    x: int,
    y: int,
    r: Option<Seq<(usize, usize)>>,
) -> bool {
    &&& post == board_after_move(pre, x, y)
    &&& r == move_result(pre, x, y)
}

/// Whether some entry of `coords` addresses grid cell `k`.
pub open spec fn writes_cell(coords: Seq<(usize, usize)>, k: int) -> bool {
    exists|j: int|
        0 <= j < coords.len() && cell_index(coords[j].0 as int, coords[j].1 as int) == k
}

/// Every cell of an opponent run lies on the board and holds a piece of
/// the opposing color.
pub proof fn lemma_opp_run_cells(g: Seq<Case>, x: int, y: int, dx: int, dy: int, own: ColorPiece)
    ensures
        forall|j: int|
            #![trigger opp_run(g, x, y, dx, dy, own)[j]]
            0 <= j < opp_run(g, x, y, dx, dy, own).len() ==> {
                let p = opp_run(g, x, y, dx, dy, own)[j];
                &&& in_bounds(p.0 as int, p.1 as int)
                &&& g[cell_index(p.0 as int, p.1 as int)] == Case::Piece(opposite(own))
            },
    decreases ray_bound(x, y, dx, dy),
{
    if dx == 0 && dy == 0 {
    } else if in_bounds(x + dx, y + dy) && g[cell_index(x + dx, y + dy)] == Case::Piece(
        opposite(own),
    ) {
        lemma_opp_run_cells(g, x + dx, y + dy, dx, dy, own);
    }
}

/// Every cell flipped by a placement lies on the board and held a piece
/// of the opposing color before the placement.
pub proof fn lemma_flips_upto_cells(g: Seq<Case>, x: int, y: int, own: ColorPiece, k: int)
    ensures
        forall|j: int|
            #![trigger flips_upto(g, x, y, own, k)[j]]
            0 <= j < flips_upto(g, x, y, own, k).len() ==> {
                let p = flips_upto(g, x, y, own, k)[j];
                &&& in_bounds(p.0 as int, p.1 as int)
                &&& g[cell_index(p.0 as int, p.1 as int)] == Case::Piece(opposite(own))
            },
    decreases k,
{
    if k <= 0 {
    } else {
        lemma_flips_upto_cells(g, x, y, own, k - 1);
        lemma_opp_run_cells(g, x, y, dir_at(k - 1).0, dir_at(k - 1).1, own);
    }
}

/// A placement captures in some direction exactly when its flip list is
/// nonempty.
pub proof fn lemma_any_capture_iff_flips(g: Seq<Case>, x: int, y: int, own: ColorPiece)
    ensures
        any_capture(g, x, y, own) <==> move_flips(g, x, y, own).len() > 0,
{
    assert forall|i: int| 0 <= i < 8 implies (captures_dir_i(g, x, y, i, own) <==> flips_dir_i(
        g,
        x,
        y,
        i,
        own,
    ).len() > 0) by {
        if captures_dir_i(g, x, y, i, own) {
            assert(opp_run(g, x, y, dir_at(i).0, dir_at(i).1, own).len() > 0);
        }
    }
    reveal_with_fuel(flips_upto, 9);
    assert(move_flips(g, x, y, own) == flips_upto(g, x, y, own, 0) + flips_dir_i(g, x, y, 0, own)
        + flips_dir_i(g, x, y, 1, own) + flips_dir_i(g, x, y, 2, own) + flips_dir_i(g, x, y, 3, own)
        + flips_dir_i(g, x, y, 4, own) + flips_dir_i(g, x, y, 5, own) + flips_dir_i(g, x, y, 6, own)
        + flips_dir_i(g, x, y, 7, own));
}

/// How updating one cell changes the count of a color.
pub proof fn lemma_count_color_update(g: Seq<Case>, k: int, v: Case, c: ColorPiece)
    requires
        0 <= k < g.len(),
    ensures
        count_color(g.update(k, v), c) == count_color(g, c) - (if g[k] == Case::Piece(c) {
            1int
        } else {
            0int
        }) + (if v == Case::Piece(c) {
            1int
        } else {
            0int
        }),
    decreases g.len(),
{
    let g2 = g.update(k, v);
    if k == g.len() - 1 {
        assert(g2.drop_last() =~= g.drop_last());
    } else {
        lemma_count_color_update(g.drop_last(), k, v, c);
        assert(g2.drop_last() =~= g.drop_last().update(k, v));
    }
}

/// How updating one cell changes the number of occupied cells.
pub proof fn lemma_count_occupied_update(g: Seq<Case>, k: int, v: Case)
    requires
        0 <= k < g.len(),
    ensures
        count_occupied(g.update(k, v)) == count_occupied(g) - (if g[k] is Piece {
            1int
        } else {
            0int
        }) + (if v is Piece {
            1int
        } else {
            0int
        }),
    decreases g.len(),
{
    let g2 = g.update(k, v);
    if k == g.len() - 1 {
        assert(g2.drop_last() =~= g.drop_last());
    } else {
        lemma_count_occupied_update(g.drop_last(), k, v);
        assert(g2.drop_last() =~= g.drop_last().update(k, v));
    }
}

/// The pieces of the two colors together are the occupied cells.
pub proof fn lemma_counts_split(g: Seq<Case>)
    ensures
        count_color(g, ColorPiece::White) + count_color(g, ColorPiece::Black) == count_occupied(g),
    decreases g.len(),
{
    if g.len() > 0 {
        lemma_counts_split(g.drop_last());
    }
}


/// Distinct board cells have distinct grid indices.
pub proof fn lemma_cell_index_injective(x1: int, y1: int, x2: int, y2: int)
    requires
        in_bounds(x1, y1),
        in_bounds(x2, y2),
        cell_index(x1, y1) == cell_index(x2, y2),
    ensures
        x1 == x2 && y1 == y2,
{
}

/// What `set_all` does, cell by cell: the listed cells now hold pieces of
/// color `c`, every other cell is unchanged, and the length is kept.
pub proof fn lemma_set_all_cells(g: Seq<Case>, coords: Seq<(usize, usize)>, c: ColorPiece)
    requires
        g.len() == 64,
        forall|j: int|
            0 <= j < coords.len() ==> in_bounds(coords[j].0 as int, coords[j].1 as int),
    ensures
        set_all(g, coords, c).len() == 64,
        forall|k: int|
            0 <= k < 64 && !writes_cell(coords, k) ==> set_all(g, coords, c)[k] == g[k],
        forall|j: int|
            0 <= j < coords.len() ==> set_all(g, coords, c)[cell_index(
                coords[j].0 as int,
                coords[j].1 as int,
            )] == Case::Piece(c),
    decreases coords.len(),
{
    if coords.len() == 0 {
    } else {
        let prefix = coords.drop_last();
        let last = coords.last();
        lemma_set_all_cells(g, prefix, c);
        let before = set_all(g, prefix, c);
        let after = set_all(g, coords, c);
        let li = cell_index(last.0 as int, last.1 as int);
        assert forall|k: int| 0 <= k < 64 && !writes_cell(coords, k) implies after[k] == g[k] by {
            assert(!writes_cell(prefix, k)) by {
                assert(forall|j: int|
                    0 <= j < prefix.len() ==> prefix[j] == coords[j]);
            }
            assert(k != li) by {
                assert(coords[coords.len() - 1] == last);
            }
        }
        assert forall|j: int| 0 <= j < coords.len() implies after[cell_index(
            coords[j].0 as int,
            coords[j].1 as int,
        )] == Case::Piece(c) by {
            let ji = cell_index(coords[j].0 as int, coords[j].1 as int);
            if ji != li {
                assert(coords[j] == prefix[j]);
            }
        }
    }
}

/// `set_all` keeps the number of occupied cells when every listed cell
/// was already occupied.
pub proof fn lemma_set_all_count_occupied(g: Seq<Case>, coords: Seq<(usize, usize)>, c: ColorPiece)
    requires
        g.len() == 64,
        forall|j: int|
            0 <= j < coords.len() ==> in_bounds(coords[j].0 as int, coords[j].1 as int),
        forall|j: int|
            0 <= j < coords.len() ==> g[cell_index(coords[j].0 as int, coords[j].1 as int)]
                is Piece,
    ensures
        count_occupied(set_all(g, coords, c)) == count_occupied(g),
    decreases coords.len(),
{
    if coords.len() == 0 {
    } else {
        let prefix = coords.drop_last();
        let last = coords.last();
        lemma_set_all_count_occupied(g, prefix, c);
        lemma_set_all_cells(g, prefix, c);
        let before = set_all(g, prefix, c);
        let li = cell_index(last.0 as int, last.1 as int);
        assert(coords[coords.len() - 1] == last);
        assert(before[li] is Piece) by {
            if !writes_cell(prefix, li) {
                assert(before[li] == g[li]);
            } else {
                let j = choose|j: int|
                    0 <= j < prefix.len() && cell_index(
                        prefix[j].0 as int,
                        prefix[j].1 as int,
                    ) == li;
                assert(before[li] == Case::Piece(c));
            }
        }
        lemma_count_occupied_update(before, li, Case::Piece(c));
    }
}

/// Every legal destination reported by the scan really is placeable, and
/// its coordinates lie on the board.
pub proof fn lemma_avail_upto_placeable(g: Seq<Case>, own: ColorPiece, n: int)
    ensures
        forall|k: int|
            #![trigger avail_upto(g, own, n)[k]]
            0 <= k < avail_upto(g, own, n).len() ==> {
                let p = avail_upto(g, own, n)[k];
                placeable(g, p.0 as int, p.1 as int, own)
            },
    decreases n,
{
    if n > 0 {
        lemma_avail_upto_placeable(g, own, n - 1);
        let x = (n - 1) % 8;
        let y = (n - 1) / 8;
        let prev = avail_upto(g, own, n - 1);
        let cur = avail_upto(g, own, n);
        assert forall|k: int| #![trigger cur[k]] 0 <= k < cur.len() implies {
            let p = cur[k];
            placeable(g, p.0 as int, p.1 as int, own)
        } by {
            if k < prev.len() {
                assert(cur[k] == prev[k]);
            } else {
                assert(placeable(g, x, y, own));
                assert(cur[k] == ((x as usize), (y as usize)));
            }
        }
    }
}

/// A grid of empty cells holds no piece of any color.
pub proof fn lemma_count_all_empty(g: Seq<Case>, c: ColorPiece)
    requires
        forall|i: int| 0 <= i < g.len() ==> g[i] is Empty,
    ensures
        count_color(g, c) == 0,
        count_occupied(g) == 0,
    decreases g.len(),
{
    if g.len() > 0 {
        lemma_count_all_empty(g.drop_last(), c);
    }
}

/// The fresh grid holds two pieces of each color, four pieces in all.
pub proof fn lemma_init_grid_counts()
    ensures
        count_color(init_grid(), ColorPiece::Black) == 2,
        count_color(init_grid(), ColorPiece::White) == 2,
        count_occupied(init_grid()) == 4,
{
    let e = Seq::new(64, |i: int| Case::Empty);
    let w = Case::Piece(ColorPiece::White);
    let b = Case::Piece(ColorPiece::Black);
    let g1 = e.update(27, w);
    let g2 = g1.update(28, b);
    let g3 = g2.update(35, b);
    lemma_count_all_empty(e, ColorPiece::Black);
    lemma_count_all_empty(e, ColorPiece::White);
    lemma_count_color_update(e, 27, w, ColorPiece::Black);
    lemma_count_color_update(e, 27, w, ColorPiece::White);
    lemma_count_occupied_update(e, 27, w);
    lemma_count_color_update(g1, 28, b, ColorPiece::Black);
    lemma_count_color_update(g1, 28, b, ColorPiece::White);
    lemma_count_occupied_update(g1, 28, b);
    lemma_count_color_update(g2, 35, b, ColorPiece::Black);
    lemma_count_color_update(g2, 35, b, ColorPiece::White);
    lemma_count_occupied_update(g2, 35, b);
    lemma_count_color_update(g3, 36, w, ColorPiece::Black);
    lemma_count_color_update(g3, 36, w, ColorPiece::White);
    lemma_count_occupied_update(g3, 36, w);
}

/// What a legal placement does to the grid: every captured cell and the
/// origin hold the mover's color, every other cell is unchanged, and the
/// occupied-cell count grows by exactly one.
pub proof fn lemma_place_outcome(pre: BoardView, x: int, y: int)
    requires
        pre.wf(),
        placeable(pre.grid, x, y, pre.current_color()),
    ensures
        ({
            let own = pre.current_color();
            let flips = move_flips(pre.grid, x, y, own);
            let g2 = board_after_move(pre, x, y).grid;
            &&& flips.len() > 0
            &&& g2.len() == 64
            &&& forall|j: int|
                0 <= j < flips.len() ==> g2[cell_index(
                    #[trigger] flips[j].0 as int,
                    flips[j].1 as int,
                )] == Case::Piece(own)
            &&& g2[cell_index(x, y)] == Case::Piece(own)
            &&& count_occupied(g2) == count_occupied(pre.grid) + 1
            &&& forall|k: int|
                0 <= k < 64 && k != cell_index(x, y) && !writes_cell(flips, k) ==> g2[k]
                    == pre.grid[k]
        }),
{
    let own = pre.current_color();
    let g0 = pre.grid;
    let flips = move_flips(g0, x, y, own);
    let oi = cell_index(x, y);
    lemma_any_capture_iff_flips(g0, x, y, own);
    lemma_flips_upto_cells(g0, x, y, own, 8);
    lemma_set_all_cells(g0, flips, own);
    lemma_set_all_count_occupied(g0, flips, own);
    let mid = set_all(g0, flips, own);
    assert(!writes_cell(flips, oi)) by {
        if writes_cell(flips, oi) {
            let j = choose|j: int|
                0 <= j < flips.len() && cell_index(flips[j].0 as int, flips[j].1 as int) == oi;
            lemma_cell_index_injective(flips[j].0 as int, flips[j].1 as int, x, y);
        }
    }
    lemma_count_occupied_update(mid, oi, Case::Piece(own));
    assert forall|j: int| 0 <= j < flips.len() implies board_after_move(pre, x, y).grid[cell_index(
        #[trigger] flips[j].0 as int,
        flips[j].1 as int,
    )] == Case::Piece(own) by {
        let ji = cell_index(flips[j].0 as int, flips[j].1 as int);
        assert(mid[ji] == Case::Piece(own));
        assert(ji != oi);
    }
}

/// The single-level auto-pass: after a legal placement the turn passes to
/// the opponent exactly when the opponent still has a legal destination,
/// and reverts to the mover otherwise — never cascading further.
pub proof fn lemma_auto_pass(pre: BoardView, x: int, y: int)
    requires
        pre.wf(),
        placeable(pre.grid, x, y, pre.current_color()),
    ensures
        ({
            let post = board_after_move(pre, x, y);
            let opp = opposite(pre.current_color());
            &&& available_moves(post.grid, opp).len() == 0 ==> post.current == pre.current
            &&& available_moves(post.grid, opp).len() > 0 ==> post.current == other(pre.current)
                && post.current_color() == opp
        }),
{
}

/// The board of a Reversi game: the 64-cell grid, the two players, and
/// the side to move.
pub struct Board {
    array: Vec<Case>,
    current_player: PlayerId,
    player1: Player,
    player2: Player,
}

impl View for Board {
    type V = BoardView;

    closed spec fn view(&self) -> BoardView {
        BoardView {
            grid: self.array@,
            current: self.current_player,
            player1_color: self.player1@,
            player2_color: self.player2@,
        }
    }
}

/// The final score of a game: how many cells each side holds.
pub struct Score {
    /// The number of cells holding the first player's color.
    pub player1: usize,
    /// The number of cells holding the second player's color.
    pub player2: usize,
}

impl Score {
    /// The first player's count.
    pub fn player1(&self) -> (n: usize)
        ensures
            n == self.player1,
    {
        self.player1
    }

    /// The second player's count.
    pub fn player2(&self) -> (n: usize)
        ensures
            n == self.player2,
    {
        self.player2
    }
}

impl Board {
    /// A fresh board: the central diamond occupied, everything else
    /// empty, the black-playing first player to move.
    pub fn new() -> (b: Board)
        ensures
            b@.wf(),
            b@.grid == init_grid(),
            b@.current == PlayerId::Player1,
            b@.player1_color == ColorPiece::Black,
            b@.player2_color == ColorPiece::White,
            count_color(b@.grid, ColorPiece::Black) == 2,
            count_color(b@.grid, ColorPiece::White) == 2,
            count_occupied(b@.grid) == 4,
    {
        let mut array: Vec<Case> = Vec::new();
        let mut k: usize = 0;
        while k < 64
            invariant
                k <= 64,
                array@.len() == k as int,
                forall|i: int| 0 <= i < k ==> array@[i] == Case::Empty,
            decreases 64 - k,
        {
            array.push(Case::Empty);
            k = k + 1;
        }
        proof {
            assert(array@ =~= Seq::new(64, |i: int| Case::Empty));
        }
        array[27] = Case::Piece(ColorPiece::White);
        array[28] = Case::Piece(ColorPiece::Black);
        array[35] = Case::Piece(ColorPiece::Black);
        array[36] = Case::Piece(ColorPiece::White);
        proof {
            lemma_init_grid_counts();
        }
        Board {
            array,
            current_player: PlayerId::Player1,
            player1: Player::new(ColorPiece::Black),
            player2: Player::new(ColorPiece::White),
        }
    }

    /// A board with the given grid, the black-playing first player to
    /// move.
    pub fn create_board_for_test(array: [Case; 64]) -> (b: Board)
        ensures
            b@.wf(),
            b@.grid == array@,
            b@.current == PlayerId::Player1,
            b@.player1_color == ColorPiece::Black,
            b@.player2_color == ColorPiece::White,
    {
        Board::with_players(
            array,
            Player::new(ColorPiece::Black),
            Player::new(ColorPiece::White),
        )
    }

    /// A board with the given grid and the given color binding — the
    /// binding of sides to colors is a construction parameter — with the
    /// first player to move.
    pub fn with_players(array: [Case; 64], player1: Player, player2: Player) -> (b: Board)
        requires
            player2@ == opposite(player1@),
        ensures
            b@.wf(),
            b@.grid == array@,
            b@.current == PlayerId::Player1,
            b@.player1_color == player1@,
            b@.player2_color == player2@,
    {
        let mut cells: Vec<Case> = Vec::new();
        let mut k: usize = 0;
        while k < 64
            invariant
                k <= 64,
                cells@ =~= array@.subrange(0, k as int),
            decreases 64 - k,
        {
            cells.push(array[k]);
            k = k + 1;
        }
        proof {
            assert(cells@ =~= array@);
        }
        Board { array: cells, current_player: PlayerId::Player1, player1, player2 }
    }

    /// The player whose turn it is.
    pub fn current_player(&self) -> (p: &Player)
        ensures
            p@ == self@.current_color(),
    {
        match self.current_player {
            PlayerId::Player1 => &self.player1,
            PlayerId::Player2 => &self.player2,
        }
    }

    /// Whether the first player is to move.
    pub fn player1(&self) -> (r: bool)
        ensures
            r <==> self@.current == PlayerId::Player1,
    {
        self.current_player == PlayerId::Player1
    }

    /// Whether the second player is to move.
    pub fn player2(&self) -> (r: bool)
        ensures
            r <==> self@.current == PlayerId::Player2,
    {
        self.current_player == PlayerId::Player2
    }

    /// The cell at `(i, j)`, or `None` outside the 8x8 range.
    pub fn cell(&self, i: usize, j: usize) -> (r: Option<&Case>)
        requires
            self@.wf(),
        ensures
            i <= 7 && j <= 7 ==> (r matches Some(c) && *c == self@.grid[cell_index(
                i as int,
                j as int,
            )]),
            i > 7 || j > 7 ==> r is None,
    {
        if i > 7 || j > 7 {
            return None;
        }
        Some(&self.array[i * 8 + j])
    }

    /// Scan outward from `(x, y)` in direction `(dx, dy)`: the opponent
    /// run captured by a placement there, or `None` when no capture line
    /// lies in that direction.
    #[verifier::rlimit(50)]
    pub fn scan_flips_in_direction(
        &self,
        x: usize,
        y: usize,
        dx: isize,
        dy: isize,
        opponent: ColorPiece,
        player: ColorPiece,
    ) -> (r: Option<Vec<(usize, usize)>>)
        requires
            self@.wf(),
            x < 8,
            y < 8,
            -1 <= dx <= 1,
            -1 <= dy <= 1,
            opponent == opposite(player),
        ensures
            r is Some <==> dir_captures(self@.grid, x as int, y as int, dx as int, dy as int, player),
            r matches Some(v) ==> v@ == opp_run(
                self@.grid,
                x as int,
                y as int,
                dx as int,
                dy as int,
                player,
            ) && v@.len() > 0,
    {
        if dx == 0 && dy == 0 {
            return None;
        }
        let ghost g = self@.grid;
        let ghost xi = x as int;
        let ghost yi = y as int;
        let ghost dxi = dx as int;
        let ghost dyi = dy as int;
        let mut flips: Vec<(usize, usize)> = Vec::new();
        let mut cx = x;
        let mut cy = y;
        loop
            invariant
                self@.wf(),
                g == self@.grid,
                xi == x as int && yi == y as int && dxi == dx as int && dyi == dy as int,
                -1 <= dxi <= 1,
                -1 <= dyi <= 1,
                !(dxi == 0 && dyi == 0),
                opponent == opposite(player),
                cx < 8,
                cy < 8,
                opp_run(g, xi, yi, dxi, dyi, player) == flips@ + opp_run(
                    g,
                    cx as int,
                    cy as int,
                    dxi,
                    dyi,
                    player,
                ),
                flips@.len() == 0 ==> cx == x && cy == y,
                flips@.len() > 0 ==> flips@.last() == (cx, cy),
            decreases ray_bound(cx as int, cy as int, dxi, dyi),
        {
            let nx = cx as isize + dx;
            let ny = cy as isize + dy;
            if nx < 0 || nx >= 8 || ny < 0 || ny >= 8 {
                // The run ends off the board: no terminating cell of the
                // mover's color, so nothing is captured here.
                proof {
                    assert(opp_run(g, cx as int, cy as int, dxi, dyi, player) =~= Seq::empty());
                    assert(opp_run(g, xi, yi, dxi, dyi, player) =~= flips@);
                }
                return None;
            }
            let ux = nx as usize;
            let uy = ny as usize;
            let c = self.array[ux * 8 + uy];
            if c == Case::Piece(opponent) {
                flips.push((ux, uy));
                proof {
                    assert(opp_run(g, cx as int, cy as int, dxi, dyi, player) == seq![(ux, uy)]
                        + opp_run(g, ux as int, uy as int, dxi, dyi, player));
                    assert(opp_run(g, xi, yi, dxi, dyi, player) =~= flips@ + opp_run(
                        g,
                        ux as int,
                        uy as int,
                        dxi,
                        dyi,
                        player,
                    ));
                }
                cx = ux;
                cy = uy;
            } else if c == Case::Piece(player) {
                proof {
                    assert(opp_run(g, cx as int, cy as int, dxi, dyi, player) =~= Seq::empty());
                    assert(opp_run(g, xi, yi, dxi, dyi, player) =~= flips@);
                }
                if flips.len() == 0 {
                    // The mover's own color sits immediately adjacent:
                    // there is no opponent run to capture.
                    return None;
                } else {
                    return Some(flips);
                }
            } else {
                // An empty cell cuts the run before any terminator.
                proof {
                    assert(c is Empty);
                    assert(opp_run(g, cx as int, cy as int, dxi, dyi, player) =~= Seq::empty());
                    assert(opp_run(g, xi, yi, dxi, dyi, player) =~= flips@);
                }
                return None;
            }
        }
    }

    /// Capture for the side to move at `(x, y)`: turn every captured
    /// cell to the mover's color and report the flipped coordinates in
    /// direction-major order, or `None` (leaving the board unchanged)
    /// when the destination is not a legal one.  The origin itself is
    /// not occupied here; `place` does that.
    pub fn flip(&mut self, x: usize, y: usize) -> (r: Option<Vec<(usize, usize)>>)
        requires
            old(self)@.wf(),
        ensures
            final(self)@.wf(),
            final(self)@.current == old(self)@.current,
            final(self)@.player1_color == old(self)@.player1_color,
            final(self)@.player2_color == old(self)@.player2_color,
            r is Some <==> placeable(
                old(self)@.grid,
                x as int,
                y as int,
                old(self)@.current_color(),
            ),
            r is None ==> final(self)@ == old(self)@,
            r matches Some(v) ==> ({
                let own = old(self)@.current_color();
                &&& v@ == move_flips(old(self)@.grid, x as int, y as int, own)
                &&& v@.len() > 0
                &&& final(self)@.grid == set_all(old(self)@.grid, v@, own)
            }),
    {
        if x > 7 || y > 7 {
            return None;
        }
        let c = self.array[x * 8 + y];
        if matches!(c, Case::Piece(_)) {
            return None;
        }
        let own = self.current_player().color();
        let opponent = self.current_player().opponent_color();
        let ghost g0 = self@.grid;
        let mut flips: Vec<(usize, usize)> = Vec::new();
        let mut k: usize = 0;
        while k < 8
            invariant
                self@ == old(self)@,
                self@.wf(),
                g0 == self@.grid,
                x < 8,
                y < 8,
                k <= 8,
                own == self@.current_color(),
                opponent == opposite(own),
                flips@ == flips_upto(g0, x as int, y as int, own, k as int),
            decreases 8 - k,
        {
            let d = direction_at(k);
            let scanned = self.scan_flips_in_direction(x, y, d.0, d.1, opponent, own);
            proof {
                assert(flips_upto(g0, x as int, y as int, own, k as int + 1) == flips_upto(
                    g0,
                    x as int,
                    y as int,
                    own,
                    k as int,
                ) + flips_dir_i(g0, x as int, y as int, k as int, own));
            }
            match scanned {
                Some(mut line) => {
                    proof {
                        assert(flips_dir_i(g0, x as int, y as int, k as int, own) == line@);
                    }
                    flips.append(&mut line);
                },
                None => {
                    proof {
                        assert(flips_dir_i(g0, x as int, y as int, k as int, own)
                            =~= Seq::empty());
                        assert(flips@ =~= flips_upto(g0, x as int, y as int, own, k as int + 1));
                    }
                },
            }
            k = k + 1;
        }
        if flips.len() == 0 {
            proof {
                lemma_any_capture_iff_flips(g0, x as int, y as int, own);
            }
            return None;
        }
        proof {
            lemma_any_capture_iff_flips(g0, x as int, y as int, own);
            lemma_flips_upto_cells(g0, x as int, y as int, own, 8);
        }
        let ghost fl = flips@;
        let mut j: usize = 0;
        while j < flips.len()
            invariant
                old(self)@.wf(),
                g0 == old(self)@.grid,
                fl == move_flips(g0, x as int, y as int, own),
                flips@ == fl,
                fl.len() > 0,
                j <= fl.len(),
                forall|i: int|
                    #![trigger fl[i]]
                    0 <= i < fl.len() ==> in_bounds(fl[i].0 as int, fl[i].1 as int),
                self@.grid == set_all(g0, fl.subrange(0, j as int), own),
                self@.current == old(self)@.current,
                self@.player1_color == old(self)@.player1_color,
                self@.player2_color == old(self)@.player2_color,
            decreases fl.len() - j,
        {
            let p = flips[j];
            proof {
                lemma_set_all_cells(g0, fl.subrange(0, j as int), own);
            }
            self.array[p.0 * 8 + p.1] = Case::Piece(own);
            proof {
                let sub1 = fl.subrange(0, j as int + 1);
                assert(sub1.drop_last() =~= fl.subrange(0, j as int));
                assert(sub1.last() == fl[j as int]);
                assert(self@.grid =~= set_all(g0, sub1, own));
            }
            j = j + 1;
        }
        proof {
            assert(fl.subrange(0, fl.len() as int) =~= fl);
            lemma_set_all_cells(g0, fl, own);
        }
        Some(flips)
    }

    /// Every legal destination for `player`, in scanning order (x
    /// fastest, then y).  Empty when the player has no legal move.
    pub fn available_positions(&self, player: &Player) -> (r: Vec<(usize, usize)>)
        requires
            self@.wf(),
        ensures
            r@ == available_moves(self@.grid, player@),
    {
        let own = player.color();
        let opponent = player.opponent_color();
        let ghost g = self@.grid;
        let mut result: Vec<(usize, usize)> = Vec::new();
        let mut n: usize = 0;
        while n < 64
            invariant
                self@.wf(),
                g == self@.grid,
                own == player@,
                opponent == opposite(own),
                n <= 64,
                result@ == avail_upto(g, own, n as int),
            decreases 64 - n,
        {
            let x = n % 8;
            let y = n / 8;
            let c = self.array[x * 8 + y];
            let mut legal = false;
            if matches!(c, Case::Empty) {
                let mut k: usize = 0;
                while k < 8 && !legal
                    invariant
                        self@.wf(),
                        g == self@.grid,
                        own == player@,
                        opponent == opposite(own),
                        x < 8,
                        y < 8,
                        k <= 8,
                        legal ==> any_capture(g, x as int, y as int, own),
                        !legal ==> forall|i: int|
                            0 <= i < k ==> !captures_dir_i(g, x as int, y as int, i, own),
                    decreases 8 - k,
                {
                    let d = direction_at(k);
                    let scanned = self.scan_flips_in_direction(x, y, d.0, d.1, opponent, own);
                    if scanned.is_some() {
                        proof {
                            assert(captures_dir_i(g, x as int, y as int, k as int, own));
                        }
                        legal = true;
                    }
                    k = k + 1;
                }
            }
            proof {
                assert(legal <==> placeable(g, x as int, y as int, own));
            }
            if legal {
                result.push((x, y));
            }
            proof {
                assert(result@ =~= avail_upto(g, own, n as int + 1));
            }
            n = n + 1;
        }
        result
    }

    /// Apply a move of the side to move at `(x, y)`.
    ///
    /// Rejected — `None`, with the board untouched — when `(x, y)` lies
    /// outside the 8x8 range, the cell is occupied, or the placement
    /// captures nothing.  On success the captured cells and the origin
    /// take the mover's color, the flipped coordinates come back in
    /// direction-major order, and the turn passes to the opponent unless
    /// the opponent is left without a legal destination, in which case
    /// it reverts to the mover.
    pub fn place(&mut self, x: usize, y: usize) -> (r: Option<Vec<(usize, usize)>>)
        requires
            old(self)@.wf(),
        ensures
            final(self)@.wf(),
            place_post(old(self)@, final(self)@, x as int, y as int, flips_view(r)),
            r is Some <==> placeable(
                old(self)@.grid,
                x as int,
                y as int,
                old(self)@.current_color(),
            ),
            r is None ==> final(self)@ == old(self)@,
            r matches Some(v) ==> v@ == move_flips(
                old(self)@.grid,
                x as int,
                y as int,
                old(self)@.current_color(),
            ) && v@.len() > 0,
    {
        if x > 7 || y > 7 {
            return None;
        }
        let own = self.current_player().color();
        let ghost pre = self@;
        let flipped_cells = self.flip(x, y);
        match flipped_cells {
            None => None,
            Some(v) => {
                self.array[x * 8 + y] = Case::Piece(own);
                proof {
                    assert(self@.grid =~= grid_after_move(pre.grid, x as int, y as int, own));
                }
                self.switch_player();
                let no_moves = {
                    let avail = self.available_positions(self.current_player());
                    avail.len() == 0
                };
                proof {
                    assert(self@.current_color() == opposite(own));
                }
                if no_moves {
                    self.switch_player();
                }
                proof {
                    assert(self@ == board_after_move(pre, x as int, y as int));
                }
                Some(v)
            },
        }
    }

    /// Whether some cell of the grid is still empty.
    fn has_empty_cell(&self) -> (r: bool)
        requires
            self@.wf(),
        ensures
            r <==> !grid_full(self@.grid),
    {
        let mut k: usize = 0;
        while k < 64
            invariant
                self@.wf(),
                k <= 64,
                forall|i: int| 0 <= i < k ==> self@.grid[i] is Piece,
            decreases 64 - k,
        {
            let c = self.array[k];
            if matches!(c, Case::Empty) {
                return true;
            }
            k = k + 1;
        }
        false
    }

    /// How many cells hold a piece of color `c`.
    fn count_pieces(&self, c: ColorPiece) -> (n: usize)
        requires
            self@.wf(),
        ensures
            n == count_color(self@.grid, c),
    {
        let ghost g = self@.grid;
        let mut n: usize = 0;
        let mut k: usize = 0;
        while k < 64
            invariant
                self@.wf(),
                g == self@.grid,
                k <= 64,
                n <= k,
                n == count_color(g.take(k as int), c),
            decreases 64 - k,
        {
            let cell = self.array[k];
            proof {
                assert(g.take(k as int + 1).drop_last() =~= g.take(k as int));
                assert(g.take(k as int + 1).last() == g[k as int]);
            }
            if cell == Case::Piece(c) {
                n = n + 1;
            }
            k = k + 1;
        }
        proof {
            assert(g.take(64) =~= g);
        }
        n
    }

    /// The final score once the game is over: `Some` exactly when no
    /// empty cell remains or neither player has a legal destination, and
    /// then the per-color counts, which together cover every occupied
    /// cell.  `None` while the game goes on.
    pub fn end_of_game(&self) -> (r: Option<Score>)
        requires
            self@.wf(),
        ensures
            r is Some <==> (grid_full(self@.grid) || (available_moves(
                self@.grid,
                self@.player1_color,
            ).len() == 0 && available_moves(self@.grid, self@.player2_color).len() == 0)),
            r matches Some(s) ==> ({
                &&& s.player1 == count_color(self@.grid, self@.player1_color)
                &&& s.player2 == count_color(self@.grid, self@.player2_color)
                &&& s.player1 + s.player2 == count_occupied(self@.grid)
            }),
    {
        let board_has_cell_empty = self.has_empty_cell();
        let over = if !board_has_cell_empty {
            true
        } else {
            let moves1 = self.available_positions(&self.player1);
            if moves1.len() > 0 {
                false
            } else {
                let moves2 = self.available_positions(&self.player2);
                moves2.len() == 0
            }
        };
        if over {
            proof {
                lemma_counts_split(self@.grid);
            }
            Some(
                Score {
                    player1: self.count_pieces(self.player1.color()),
                    player2: self.count_pieces(self.player2.color()),
                },
            )
        } else {
            None
        }
    }

    /// Hand the turn to the other side.
    pub fn switch_player(&mut self)
        ensures
            final(self)@.grid == old(self)@.grid,
            final(self)@.current == other(old(self)@.current),
            final(self)@.player1_color == old(self)@.player1_color,
            final(self)@.player2_color == old(self)@.player2_color,
    {
        self.current_player = match self.current_player {
            PlayerId::Player1 => PlayerId::Player2,
            PlayerId::Player2 => PlayerId::Player1,
        }
    }
}

impl Default for Board {
    /// The same fresh board as `Board::new`.
    fn default() -> (b: Board)
        ensures
            b@.wf(),
            b@.grid == init_grid(),
            b@.current == PlayerId::Player1,
            b@.player1_color == ColorPiece::Black,
            b@.player2_color == ColorPiece::White,
    {
        Board::new()
    }
}

/// A cursor over the 64 board coordinates in scanning order: x fastest,
/// then y.
pub struct BoardIter {
    x: usize,
    y: usize,
}

impl BoardIter {
    /// The column the cursor stands on.
    pub closed spec fn pos_x(&self) -> int {
        self.x as int
    }

    /// The row the cursor stands on.
    pub closed spec fn pos_y(&self) -> int {
        self.y as int
    }

    /// A cursor standing on `(0, 0)`.
    pub fn new() -> (it: BoardIter)
        ensures
            it.pos_x() == 0,
            it.pos_y() == 0,
    {
        BoardIter { x: 0, y: 0 }
    }

    /// The coordinate under the cursor, advancing it by one cell, or
    /// `None` once every row has been passed.
    pub fn next(&mut self) -> (r: Option<(usize, usize)>)
        ensures
            old(self).pos_y() >= 8 ==> r is None && *final(self) == *old(self),
            old(self).pos_y() < 8 ==> ({
                &&& r matches Some(p) && p.0 as int == old(self).pos_x() && p.1 as int == old(
                    self,
                ).pos_y()
                &&& old(self).pos_x() < 7 ==> final(self).pos_x() == old(self).pos_x() + 1
                    && final(self).pos_y() == old(self).pos_y()
                &&& old(self).pos_x() >= 7 ==> final(self).pos_x() == 0 && final(self).pos_y()
                    == old(self).pos_y() + 1
            }),
    {
        if self.y >= 8 {
            return None;
        }
        let pos = (self.x, self.y);
        if self.x >= 7 {
            self.x = 0;
            self.y = self.y + 1;
        } else {
            self.x = self.x + 1;
        }
        Some(pos)
    }
}

impl Default for BoardIter {
    /// The same fresh cursor as `BoardIter::new`.
    fn default() -> (it: BoardIter)
        ensures
            it.pos_x() == 0,
            it.pos_y() == 0,
    {
        BoardIter::new()
    }
}

} // verus!
