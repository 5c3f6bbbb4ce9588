//! The standard opening position, evaluated against the legality spec:
//! the black-playing first player starts with exactly the four canonical
//! opening moves.

use crate::domain::board::{
    avail_upto, available_moves, captures_dir_i, init_grid, opp_run, placeable, Case, ColorPiece,
};
use vstd::prelude::*;

verus! {

/// A stretch of the scan that meets no legal destination adds nothing
/// to the enumeration.
#[verifier::rlimit(100)]
#[verifier::spinoff_prover]
proof fn lemma_avail_stretch(g: Seq<Case>, own: ColorPiece, n0: int, n: int)
    requires
        0 <= n0 <= n,
        forall|x: int, y: int|
            0 <= x < 8 && 0 <= y < 8 && n0 <= y * 8 + x < n ==> !placeable(g, x, y, own),
    ensures
        avail_upto(g, own, n) =~= avail_upto(g, own, n0),
    decreases n - n0,
{
    if n > n0 {
        lemma_avail_stretch(g, own, n0, n - 1);
        assert(!placeable(g, (n - 1) % 8, (n - 1) / 8, own));
    }
}

/// A scan step onto a legal destination appends exactly that cell to
/// the enumeration.
#[verifier::rlimit(100)]
#[verifier::spinoff_prover]
proof fn lemma_avail_step_hit(g: Seq<Case>, own: ColorPiece, n: int)
    requires
        1 <= n,
        placeable(g, (n - 1) % 8, (n - 1) / 8, own),
    ensures
        avail_upto(g, own, n) =~= avail_upto(g, own, n - 1) + seq![
            ((((n - 1) % 8) as usize), (((n - 1) / 8) as usize)),
        ],
{
}

/// Cell (0, 0) is no legal destination for the opener.
#[verifier::rlimit(100)]
#[verifier::spinoff_prover]
proof fn lemma_initial_cell_0_0()
    ensures
        !placeable(init_grid(), 0, 0, ColorPiece::Black),
{
    reveal_with_fuel(opp_run, 4);
}

/// Cell (1, 0) is no legal destination for the opener.
#[verifier::rlimit(100)]
#[verifier::spinoff_prover]
proof fn lemma_initial_cell_1_0()
    ensures
        !placeable(init_grid(), 1, 0, ColorPiece::Black),
{
    reveal_with_fuel(opp_run, 4);
}

/// Cell (2, 0) is no legal destination for the opener.
#[verifier::rlimit(100)]
#[verifier::spinoff_prover]
proof fn lemma_initial_cell_2_0()
    ensures
        !placeable(init_grid(), 2, 0, ColorPiece::Black),
{
    reveal_with_fuel(opp_run, 4);
}

/// Cell (3, 0) is no legal destination for the opener.
#[verifier::rlimit(100)]
#[verifier::spinoff_prover]
proof fn lemma_initial_cell_3_0()
    ensures
        !placeable(init_grid(), 3, 0, ColorPiece::Black),
{
    reveal_with_fuel(opp_run, 4);
}

/// Cell (4, 0) is no legal destination for the opener.
#[verifier::rlimit(100)]
#[verifier::spinoff_prover]
proof fn lemma_initial_cell_4_0()
    ensures
        !placeable(init_grid(), 4, 0, ColorPiece::Black),
{
    reveal_with_fuel(opp_run, 4);
}

/// Cell (5, 0) is no legal destination for the opener.
#[verifier::rlimit(100)]
#[verifier::spinoff_prover]
proof fn lemma_initial_cell_5_0()
    ensures
        !placeable(init_grid(), 5, 0, ColorPiece::Black),
{
    reveal_with_fuel(opp_run, 4);
}

/// Cell (6, 0) is no legal destination for the opener.
#[verifier::rlimit(100)]
#[verifier::spinoff_prover]
proof fn lemma_initial_cell_6_0()
    ensures
        !placeable(init_grid(), 6, 0, ColorPiece::Black),
{
    reveal_with_fuel(opp_run, 4);
}

/// Cell (7, 0) is no legal destination for the opener.
#[verifier::rlimit(100)]
#[verifier::spinoff_prover]
proof fn lemma_initial_cell_7_0()
    ensures
        !placeable(init_grid(), 7, 0, ColorPiece::Black),
{
    reveal_with_fuel(opp_run, 4);
}

/// Cell (0, 1) is no legal destination for the opener.
#[verifier::rlimit(100)]
#[verifier::spinoff_prover]
proof fn lemma_initial_cell_0_1()
    ensures
        !placeable(init_grid(), 0, 1, ColorPiece::Black),
{
    reveal_with_fuel(opp_run, 4);
}

/// Cell (1, 1) is no legal destination for the opener.
#[verifier::rlimit(100)]
#[verifier::spinoff_prover]
proof fn lemma_initial_cell_1_1()
    ensures
        !placeable(init_grid(), 1, 1, ColorPiece::Black),
{
    reveal_with_fuel(opp_run, 4);
}

/// Cell (2, 1) is no legal destination for the opener.
#[verifier::rlimit(100)]
#[verifier::spinoff_prover]
proof fn lemma_initial_cell_2_1()
    ensures
        !placeable(init_grid(), 2, 1, ColorPiece::Black),
{
    reveal_with_fuel(opp_run, 4);
}

/// Cell (3, 1) is no legal destination for the opener.
#[verifier::rlimit(100)]
#[verifier::spinoff_prover]
proof fn lemma_initial_cell_3_1()
    ensures
        !placeable(init_grid(), 3, 1, ColorPiece::Black),
{
    reveal_with_fuel(opp_run, 4);
}

/// Cell (4, 1) is no legal destination for the opener.
#[verifier::rlimit(100)]
#[verifier::spinoff_prover]
proof fn lemma_initial_cell_4_1()
    ensures
        !placeable(init_grid(), 4, 1, ColorPiece::Black),
{
    reveal_with_fuel(opp_run, 4);
}

/// Cell (5, 1) is no legal destination for the opener.
#[verifier::rlimit(100)]
#[verifier::spinoff_prover]
proof fn lemma_initial_cell_5_1()
    ensures
        !placeable(init_grid(), 5, 1, ColorPiece::Black),
{
    reveal_with_fuel(opp_run, 4);
}

/// Cell (6, 1) is no legal destination for the opener.
#[verifier::rlimit(100)]
#[verifier::spinoff_prover]
proof fn lemma_initial_cell_6_1()
    ensures
        !placeable(init_grid(), 6, 1, ColorPiece::Black),
{
    reveal_with_fuel(opp_run, 4);
}

/// Cell (7, 1) is no legal destination for the opener.
#[verifier::rlimit(100)]
#[verifier::spinoff_prover]
proof fn lemma_initial_cell_7_1()
    ensures
        !placeable(init_grid(), 7, 1, ColorPiece::Black),
{
    reveal_with_fuel(opp_run, 4);
}

/// Cell (0, 2) is no legal destination for the opener.
#[verifier::rlimit(100)]
#[verifier::spinoff_prover]
proof fn lemma_initial_cell_0_2()
    ensures
        !placeable(init_grid(), 0, 2, ColorPiece::Black),
{
    reveal_with_fuel(opp_run, 4);
}

/// Cell (1, 2) is no legal destination for the opener.
#[verifier::rlimit(100)]
#[verifier::spinoff_prover]
proof fn lemma_initial_cell_1_2()
    ensures
        !placeable(init_grid(), 1, 2, ColorPiece::Black),
{
    reveal_with_fuel(opp_run, 4);
}

/// Cell (2, 2) is no legal destination for the opener.
#[verifier::rlimit(100)]
#[verifier::spinoff_prover]
proof fn lemma_initial_cell_2_2()
    ensures
        !placeable(init_grid(), 2, 2, ColorPiece::Black),
{
    reveal_with_fuel(opp_run, 4);
}

/// Cell (3, 2) is one of the opener's canonical destinations.
#[verifier::rlimit(100)]
#[verifier::spinoff_prover]
proof fn lemma_initial_cell_3_2()
    ensures
        placeable(init_grid(), 3, 2, ColorPiece::Black),
{
    reveal_with_fuel(opp_run, 3);
    assert(captures_dir_i(init_grid(), 3, 2, 4, ColorPiece::Black));
}

/// Cell (4, 2) is no legal destination for the opener.
#[verifier::rlimit(100)]
#[verifier::spinoff_prover]
proof fn lemma_initial_cell_4_2()
    ensures
        !placeable(init_grid(), 4, 2, ColorPiece::Black),
{
    reveal_with_fuel(opp_run, 4);
}

/// Cell (5, 2) is no legal destination for the opener.
#[verifier::rlimit(100)]
#[verifier::spinoff_prover]
proof fn lemma_initial_cell_5_2()
    ensures
        !placeable(init_grid(), 5, 2, ColorPiece::Black),
{
    reveal_with_fuel(opp_run, 4);
}

/// Cell (6, 2) is no legal destination for the opener.
#[verifier::rlimit(100)]
#[verifier::spinoff_prover]
proof fn lemma_initial_cell_6_2()
    ensures
        !placeable(init_grid(), 6, 2, ColorPiece::Black),
{
    reveal_with_fuel(opp_run, 4);
}

/// Cell (7, 2) is no legal destination for the opener.
#[verifier::rlimit(100)]
#[verifier::spinoff_prover]
proof fn lemma_initial_cell_7_2()
    ensures
        !placeable(init_grid(), 7, 2, ColorPiece::Black),
{
    reveal_with_fuel(opp_run, 4);
}

/// Cell (0, 3) is no legal destination for the opener.
#[verifier::rlimit(100)]
#[verifier::spinoff_prover]
proof fn lemma_initial_cell_0_3()
    ensures
        !placeable(init_grid(), 0, 3, ColorPiece::Black),
{
    reveal_with_fuel(opp_run, 4);
}

/// Cell (1, 3) is no legal destination for the opener.
#[verifier::rlimit(100)]
#[verifier::spinoff_prover]
proof fn lemma_initial_cell_1_3()
    ensures
        !placeable(init_grid(), 1, 3, ColorPiece::Black),
{
    reveal_with_fuel(opp_run, 4);
}

/// Cell (2, 3) is one of the opener's canonical destinations.
#[verifier::rlimit(100)]
#[verifier::spinoff_prover]
proof fn lemma_initial_cell_2_3()
    ensures
        placeable(init_grid(), 2, 3, ColorPiece::Black),
{
    reveal_with_fuel(opp_run, 3);
    assert(captures_dir_i(init_grid(), 2, 3, 6, ColorPiece::Black));
}

/// Cell (3, 3) is no legal destination for the opener.
#[verifier::rlimit(100)]
#[verifier::spinoff_prover]
proof fn lemma_initial_cell_3_3()
    ensures
        !placeable(init_grid(), 3, 3, ColorPiece::Black),
{
    reveal_with_fuel(opp_run, 4);
}

/// Cell (4, 3) is no legal destination for the opener.
#[verifier::rlimit(100)]
#[verifier::spinoff_prover]
proof fn lemma_initial_cell_4_3()
    ensures
        !placeable(init_grid(), 4, 3, ColorPiece::Black),
{
    reveal_with_fuel(opp_run, 4);
}

/// Cell (5, 3) is no legal destination for the opener.
#[verifier::rlimit(100)]
#[verifier::spinoff_prover]
proof fn lemma_initial_cell_5_3()
    ensures
        !placeable(init_grid(), 5, 3, ColorPiece::Black),
{
    reveal_with_fuel(opp_run, 4);
}

/// Cell (6, 3) is no legal destination for the opener.
#[verifier::rlimit(100)]
#[verifier::spinoff_prover]
proof fn lemma_initial_cell_6_3()
    ensures
        !placeable(init_grid(), 6, 3, ColorPiece::Black),
{
    reveal_with_fuel(opp_run, 4);
}

/// Cell (7, 3) is no legal destination for the opener.
#[verifier::rlimit(100)]
#[verifier::spinoff_prover]
proof fn lemma_initial_cell_7_3()
    ensures
        !placeable(init_grid(), 7, 3, ColorPiece::Black),
{
    reveal_with_fuel(opp_run, 4);
}

/// Cell (0, 4) is no legal destination for the opener.
#[verifier::rlimit(100)]
#[verifier::spinoff_prover]
proof fn lemma_initial_cell_0_4()
    ensures
        !placeable(init_grid(), 0, 4, ColorPiece::Black),
{
    reveal_with_fuel(opp_run, 4);
}

/// Cell (1, 4) is no legal destination for the opener.
#[verifier::rlimit(100)]
#[verifier::spinoff_prover]
proof fn lemma_initial_cell_1_4()
    ensures
        !placeable(init_grid(), 1, 4, ColorPiece::Black),
{
    reveal_with_fuel(opp_run, 4);
}

/// Cell (2, 4) is no legal destination for the opener.
#[verifier::rlimit(100)]
#[verifier::spinoff_prover]
proof fn lemma_initial_cell_2_4()
    ensures
        !placeable(init_grid(), 2, 4, ColorPiece::Black),
{
    reveal_with_fuel(opp_run, 4);
}

/// Cell (3, 4) is no legal destination for the opener.
#[verifier::rlimit(100)]
#[verifier::spinoff_prover]
proof fn lemma_initial_cell_3_4()
    ensures
        !placeable(init_grid(), 3, 4, ColorPiece::Black),
{
    reveal_with_fuel(opp_run, 4);
}

/// Cell (4, 4) is no legal destination for the opener.
#[verifier::rlimit(100)]
#[verifier::spinoff_prover]
proof fn lemma_initial_cell_4_4()
    ensures
        !placeable(init_grid(), 4, 4, ColorPiece::Black),
{
    reveal_with_fuel(opp_run, 4);
}

/// Cell (5, 4) is one of the opener's canonical destinations.
#[verifier::rlimit(100)]
#[verifier::spinoff_prover]
proof fn lemma_initial_cell_5_4()
    ensures
        placeable(init_grid(), 5, 4, ColorPiece::Black),
{
    reveal_with_fuel(opp_run, 3);
    assert(captures_dir_i(init_grid(), 5, 4, 1, ColorPiece::Black));
}

/// Cell (6, 4) is no legal destination for the opener.
#[verifier::rlimit(100)]
#[verifier::spinoff_prover]
proof fn lemma_initial_cell_6_4()
    ensures
        !placeable(init_grid(), 6, 4, ColorPiece::Black),
{
    reveal_with_fuel(opp_run, 4);
}

/// Cell (7, 4) is no legal destination for the opener.
#[verifier::rlimit(100)]
#[verifier::spinoff_prover]
proof fn lemma_initial_cell_7_4()
    ensures
        !placeable(init_grid(), 7, 4, ColorPiece::Black),
{
    reveal_with_fuel(opp_run, 4);
}

/// Cell (0, 5) is no legal destination for the opener.
#[verifier::rlimit(100)]
#[verifier::spinoff_prover]
proof fn lemma_initial_cell_0_5()
    ensures
        !placeable(init_grid(), 0, 5, ColorPiece::Black),
{
    reveal_with_fuel(opp_run, 4);
}

/// Cell (1, 5) is no legal destination for the opener.
#[verifier::rlimit(100)]
#[verifier::spinoff_prover]
proof fn lemma_initial_cell_1_5()
    ensures
        !placeable(init_grid(), 1, 5, ColorPiece::Black),
{
    reveal_with_fuel(opp_run, 4);
}

/// Cell (2, 5) is no legal destination for the opener.
#[verifier::rlimit(100)]
#[verifier::spinoff_prover]
proof fn lemma_initial_cell_2_5()
    ensures
        !placeable(init_grid(), 2, 5, ColorPiece::Black),
{
    reveal_with_fuel(opp_run, 4);
}

/// Cell (3, 5) is no legal destination for the opener.
#[verifier::rlimit(100)]
#[verifier::spinoff_prover]
proof fn lemma_initial_cell_3_5()
    ensures
        !placeable(init_grid(), 3, 5, ColorPiece::Black),
{
    reveal_with_fuel(opp_run, 4);
}

/// Cell (4, 5) is one of the opener's canonical destinations.
#[verifier::rlimit(100)]
#[verifier::spinoff_prover]
proof fn lemma_initial_cell_4_5()
    ensures
        placeable(init_grid(), 4, 5, ColorPiece::Black),
{
    reveal_with_fuel(opp_run, 3);
    assert(captures_dir_i(init_grid(), 4, 5, 3, ColorPiece::Black));
}

/// Cell (5, 5) is no legal destination for the opener.
#[verifier::rlimit(100)]
#[verifier::spinoff_prover]
proof fn lemma_initial_cell_5_5()
    ensures
        !placeable(init_grid(), 5, 5, ColorPiece::Black),
{
    reveal_with_fuel(opp_run, 4);
}

/// Cell (6, 5) is no legal destination for the opener.
#[verifier::rlimit(100)]
#[verifier::spinoff_prover]
proof fn lemma_initial_cell_6_5()
    ensures
        !placeable(init_grid(), 6, 5, ColorPiece::Black),
{
    reveal_with_fuel(opp_run, 4);
}

/// Cell (7, 5) is no legal destination for the opener.
#[verifier::rlimit(100)]
#[verifier::spinoff_prover]
proof fn lemma_initial_cell_7_5()
    ensures
        !placeable(init_grid(), 7, 5, ColorPiece::Black),
{
    reveal_with_fuel(opp_run, 4);
}

/// Cell (0, 6) is no legal destination for the opener.
#[verifier::rlimit(100)]
#[verifier::spinoff_prover]
proof fn lemma_initial_cell_0_6()
    ensures
        !placeable(init_grid(), 0, 6, ColorPiece::Black),
{
    reveal_with_fuel(opp_run, 4);
}

/// Cell (1, 6) is no legal destination for the opener.
#[verifier::rlimit(100)]
#[verifier::spinoff_prover]
proof fn lemma_initial_cell_1_6()
    ensures
        !placeable(init_grid(), 1, 6, ColorPiece::Black),
{
    reveal_with_fuel(opp_run, 4);
}

/// Cell (2, 6) is no legal destination for the opener.
#[verifier::rlimit(100)]
#[verifier::spinoff_prover]
proof fn lemma_initial_cell_2_6()
    ensures
        !placeable(init_grid(), 2, 6, ColorPiece::Black),
{
    reveal_with_fuel(opp_run, 4);
}

/// Cell (3, 6) is no legal destination for the opener.
#[verifier::rlimit(100)]
#[verifier::spinoff_prover]
proof fn lemma_initial_cell_3_6()
    ensures
        !placeable(init_grid(), 3, 6, ColorPiece::Black),
{
    reveal_with_fuel(opp_run, 4);
}

/// Cell (4, 6) is no legal destination for the opener.
#[verifier::rlimit(100)]
#[verifier::spinoff_prover]
proof fn lemma_initial_cell_4_6()
    ensures
        !placeable(init_grid(), 4, 6, ColorPiece::Black),
{
    reveal_with_fuel(opp_run, 4);
}

/// Cell (5, 6) is no legal destination for the opener.
#[verifier::rlimit(100)]
#[verifier::spinoff_prover]
proof fn lemma_initial_cell_5_6()
    ensures
        !placeable(init_grid(), 5, 6, ColorPiece::Black),
{
    reveal_with_fuel(opp_run, 4);
}

/// Cell (6, 6) is no legal destination for the opener.
#[verifier::rlimit(100)]
#[verifier::spinoff_prover]
proof fn lemma_initial_cell_6_6()
    ensures
        !placeable(init_grid(), 6, 6, ColorPiece::Black),
{
    reveal_with_fuel(opp_run, 4);
}

/// Cell (7, 6) is no legal destination for the opener.
#[verifier::rlimit(100)]
#[verifier::spinoff_prover]
proof fn lemma_initial_cell_7_6()
    ensures
        !placeable(init_grid(), 7, 6, ColorPiece::Black),
{
    reveal_with_fuel(opp_run, 4);
}

/// Cell (0, 7) is no legal destination for the opener.
#[verifier::rlimit(100)]
#[verifier::spinoff_prover]
proof fn lemma_initial_cell_0_7()
    ensures
        !placeable(init_grid(), 0, 7, ColorPiece::Black),
{
    reveal_with_fuel(opp_run, 4);
}

/// Cell (1, 7) is no legal destination for the opener.
#[verifier::rlimit(100)]
#[verifier::spinoff_prover]
proof fn lemma_initial_cell_1_7()
    ensures
        !placeable(init_grid(), 1, 7, ColorPiece::Black),
{
    reveal_with_fuel(opp_run, 4);
}

/// Cell (2, 7) is no legal destination for the opener.
#[verifier::rlimit(100)]
#[verifier::spinoff_prover]
proof fn lemma_initial_cell_2_7()
    ensures
        !placeable(init_grid(), 2, 7, ColorPiece::Black),
{
    reveal_with_fuel(opp_run, 4);
}

/// Cell (3, 7) is no legal destination for the opener.
#[verifier::rlimit(100)]
#[verifier::spinoff_prover]
proof fn lemma_initial_cell_3_7()
    ensures
        !placeable(init_grid(), 3, 7, ColorPiece::Black),
{
    reveal_with_fuel(opp_run, 4);
}

/// Cell (4, 7) is no legal destination for the opener.
#[verifier::rlimit(100)]
#[verifier::spinoff_prover]
proof fn lemma_initial_cell_4_7()
    ensures
        !placeable(init_grid(), 4, 7, ColorPiece::Black),
{
    reveal_with_fuel(opp_run, 4);
}

/// Cell (5, 7) is no legal destination for the opener.
#[verifier::rlimit(100)]
#[verifier::spinoff_prover]
proof fn lemma_initial_cell_5_7()
    ensures
        !placeable(init_grid(), 5, 7, ColorPiece::Black),
{
    reveal_with_fuel(opp_run, 4);
}

/// Cell (6, 7) is no legal destination for the opener.
#[verifier::rlimit(100)]
#[verifier::spinoff_prover]
proof fn lemma_initial_cell_6_7()
    ensures
        !placeable(init_grid(), 6, 7, ColorPiece::Black),
{
    reveal_with_fuel(opp_run, 4);
}

/// Cell (7, 7) is no legal destination for the opener.
#[verifier::rlimit(100)]
#[verifier::spinoff_prover]
proof fn lemma_initial_cell_7_7()
    ensures
        !placeable(init_grid(), 7, 7, ColorPiece::Black),
{
    reveal_with_fuel(opp_run, 4);
}

/// The left half of row 0 contributes no legal destination.
#[verifier::rlimit(100)]
#[verifier::spinoff_prover]
proof fn lemma_initial_row_0_left()
    ensures
        avail_upto(init_grid(), ColorPiece::Black, 4) =~= avail_upto(
            init_grid(),
            ColorPiece::Black,
            0,
        ) + Seq::<(usize, usize)>::empty(),
{
    assert forall|x: int, y: int|
        0 <= x < 8 && 0 <= y < 8 && 0 <= y * 8 + x < 4 implies !placeable(
        init_grid(),
        x,
        y,
        ColorPiece::Black,
    ) by {
        lemma_initial_cell_0_0();
        lemma_initial_cell_1_0();
        lemma_initial_cell_2_0();
        lemma_initial_cell_3_0();
    }
    lemma_avail_stretch(init_grid(), ColorPiece::Black, 0, 4);
}

/// The right half of row 0 contributes no legal destination.
#[verifier::rlimit(100)]
#[verifier::spinoff_prover]
proof fn lemma_initial_row_0_right()
    ensures
        avail_upto(init_grid(), ColorPiece::Black, 8) =~= avail_upto(
            init_grid(),
            ColorPiece::Black,
            4,
        ) + Seq::<(usize, usize)>::empty(),
{
    assert forall|x: int, y: int|
        0 <= x < 8 && 0 <= y < 8 && 4 <= y * 8 + x < 8 implies !placeable(
        init_grid(),
        x,
        y,
        ColorPiece::Black,
    ) by {
        lemma_initial_cell_4_0();
        lemma_initial_cell_5_0();
        lemma_initial_cell_6_0();
        lemma_initial_cell_7_0();
    }
    lemma_avail_stretch(init_grid(), ColorPiece::Black, 4, 8);
}

/// Row 0 of the standard start contributes no legal destination.
#[verifier::rlimit(100)]
#[verifier::spinoff_prover]
proof fn lemma_initial_row_0()
    ensures
        avail_upto(init_grid(), ColorPiece::Black, 8) =~= avail_upto(
            init_grid(),
            ColorPiece::Black,
            0,
        ) + Seq::<(usize, usize)>::empty(),
{
    lemma_initial_row_0_left();
    lemma_initial_row_0_right();
}

/// The left half of row 1 contributes no legal destination.
#[verifier::rlimit(100)]
#[verifier::spinoff_prover]
proof fn lemma_initial_row_1_left()
    ensures
        avail_upto(init_grid(), ColorPiece::Black, 12) =~= avail_upto(
            init_grid(),
            ColorPiece::Black,
            8,
        ) + Seq::<(usize, usize)>::empty(),
{
    assert forall|x: int, y: int|
        0 <= x < 8 && 0 <= y < 8 && 8 <= y * 8 + x < 12 implies !placeable(
        init_grid(),
        x,
        y,
        ColorPiece::Black,
    ) by {
        lemma_initial_cell_0_1();
        lemma_initial_cell_1_1();
        lemma_initial_cell_2_1();
        lemma_initial_cell_3_1();
    }
    lemma_avail_stretch(init_grid(), ColorPiece::Black, 8, 12);
}

/// The right half of row 1 contributes no legal destination.
#[verifier::rlimit(100)]
#[verifier::spinoff_prover]
proof fn lemma_initial_row_1_right()
    ensures
        avail_upto(init_grid(), ColorPiece::Black, 16) =~= avail_upto(
            init_grid(),
            ColorPiece::Black,
            12,
        ) + Seq::<(usize, usize)>::empty(),
{
    assert forall|x: int, y: int|
        0 <= x < 8 && 0 <= y < 8 && 12 <= y * 8 + x < 16 implies !placeable(
        init_grid(),
        x,
        y,
        ColorPiece::Black,
    ) by {
        lemma_initial_cell_4_1();
        lemma_initial_cell_5_1();
        lemma_initial_cell_6_1();
        lemma_initial_cell_7_1();
    }
    lemma_avail_stretch(init_grid(), ColorPiece::Black, 12, 16);
}

/// Row 1 of the standard start contributes no legal destination.
#[verifier::rlimit(100)]
#[verifier::spinoff_prover]
proof fn lemma_initial_row_1()
    ensures
        avail_upto(init_grid(), ColorPiece::Black, 16) =~= avail_upto(
            init_grid(),
            ColorPiece::Black,
            8,
        ) + Seq::<(usize, usize)>::empty(),
{
    lemma_initial_row_1_left();
    lemma_initial_row_1_right();
}

/// The left half of row 2 contributes its one canonical opening move.
#[verifier::rlimit(100)]
#[verifier::spinoff_prover]
proof fn lemma_initial_row_2_left()
    ensures
        avail_upto(init_grid(), ColorPiece::Black, 20) =~= avail_upto(
            init_grid(),
            ColorPiece::Black,
            16,
        ) + seq![(3usize, 2usize)],
{
    assert forall|x: int, y: int|
        0 <= x < 8 && 0 <= y < 8 && 16 <= y * 8 + x < 19 implies !placeable(
        init_grid(),
        x,
        y,
        ColorPiece::Black,
    ) by {
        lemma_initial_cell_0_2();
        lemma_initial_cell_1_2();
        lemma_initial_cell_2_2();
    }
    lemma_avail_stretch(init_grid(), ColorPiece::Black, 16, 19);
    lemma_initial_cell_3_2();
    lemma_avail_step_hit(init_grid(), ColorPiece::Black, 20);
    lemma_avail_stretch(init_grid(), ColorPiece::Black, 20, 20);
}

/// The right half of row 2 contributes no legal destination.
#[verifier::rlimit(100)]
#[verifier::spinoff_prover]
proof fn lemma_initial_row_2_right()
    ensures
        avail_upto(init_grid(), ColorPiece::Black, 24) =~= avail_upto(
            init_grid(),
            ColorPiece::Black,
            20,
        ) + Seq::<(usize, usize)>::empty(),
{
    assert forall|x: int, y: int|
        0 <= x < 8 && 0 <= y < 8 && 20 <= y * 8 + x < 24 implies !placeable(
        init_grid(),
        x,
        y,
        ColorPiece::Black,
    ) by {
        lemma_initial_cell_4_2();
        lemma_initial_cell_5_2();
        lemma_initial_cell_6_2();
        lemma_initial_cell_7_2();
    }
    lemma_avail_stretch(init_grid(), ColorPiece::Black, 20, 24);
}

/// Row 2 of the standard start contributes its one canonical opening move.
#[verifier::rlimit(100)]
#[verifier::spinoff_prover]
proof fn lemma_initial_row_2()
    ensures
        avail_upto(init_grid(), ColorPiece::Black, 24) =~= avail_upto(
            init_grid(),
            ColorPiece::Black,
            16,
        ) + seq![(3usize, 2usize)],
{
    lemma_initial_row_2_left();
    lemma_initial_row_2_right();
}

/// Cells (0..2, 3) of the standard start yield nothing.
#[verifier::rlimit(100)]
#[verifier::spinoff_prover]
proof fn lemma_initial_row_3_left_start()
    ensures
        avail_upto(init_grid(), ColorPiece::Black, 26) =~= avail_upto(
            init_grid(),
            ColorPiece::Black,
            24,
        ),
{
    assert forall|x: int, y: int|
        0 <= x < 8 && 0 <= y < 8 && 24 <= y * 8 + x < 26 implies !placeable(
        init_grid(),
        x,
        y,
        ColorPiece::Black,
    ) by {
        lemma_initial_cell_0_3();
        lemma_initial_cell_1_3();
    }
    lemma_avail_stretch(init_grid(), ColorPiece::Black, 24, 26);
}

/// Cells (2..4, 3) of the standard start yield the opening move (2, 3).
#[verifier::rlimit(100)]
#[verifier::spinoff_prover]
proof fn lemma_initial_row_3_left_rest()
    ensures
        avail_upto(init_grid(), ColorPiece::Black, 28) =~= avail_upto(
            init_grid(),
            ColorPiece::Black,
            26,
        ) + seq![(2usize, 3usize)],
{
    lemma_initial_cell_2_3();
    lemma_avail_step_hit(init_grid(), ColorPiece::Black, 27);
    assert forall|x: int, y: int|
        0 <= x < 8 && 0 <= y < 8 && 27 <= y * 8 + x < 28 implies !placeable(
        init_grid(),
        x,
        y,
        ColorPiece::Black,
    ) by {
        lemma_initial_cell_3_3();
    }
    lemma_avail_stretch(init_grid(), ColorPiece::Black, 27, 28);
}

/// The left half of row 3 contributes its one canonical opening move.
#[verifier::rlimit(100)]
#[verifier::spinoff_prover]
proof fn lemma_initial_row_3_left()
    ensures
        avail_upto(init_grid(), ColorPiece::Black, 28) =~= avail_upto(
            init_grid(),
            ColorPiece::Black,
            24,
        ) + seq![(2usize, 3usize)],
{
    lemma_initial_row_3_left_start();
    lemma_initial_row_3_left_rest();
}

/// The right half of row 3 contributes no legal destination.
#[verifier::rlimit(100)]
#[verifier::spinoff_prover]
proof fn lemma_initial_row_3_right()
    ensures
        avail_upto(init_grid(), ColorPiece::Black, 32) =~= avail_upto(
            init_grid(),
            ColorPiece::Black,
            28,
        ) + Seq::<(usize, usize)>::empty(),
{
    assert forall|x: int, y: int|
        0 <= x < 8 && 0 <= y < 8 && 28 <= y * 8 + x < 32 implies !placeable(
        init_grid(),
        x,
        y,
        ColorPiece::Black,
    ) by {
        lemma_initial_cell_4_3();
        lemma_initial_cell_5_3();
        lemma_initial_cell_6_3();
        lemma_initial_cell_7_3();
    }
    lemma_avail_stretch(init_grid(), ColorPiece::Black, 28, 32);
}

/// Row 3 of the standard start contributes its one canonical opening move.
#[verifier::rlimit(100)]
#[verifier::spinoff_prover]
proof fn lemma_initial_row_3()
    ensures
        avail_upto(init_grid(), ColorPiece::Black, 32) =~= avail_upto(
            init_grid(),
            ColorPiece::Black,
            24,
        ) + seq![(2usize, 3usize)],
{
    lemma_initial_row_3_left();
    lemma_initial_row_3_right();
}

/// The left half of row 4 contributes no legal destination.
#[verifier::rlimit(100)]
#[verifier::spinoff_prover]
proof fn lemma_initial_row_4_left()
    ensures
        avail_upto(init_grid(), ColorPiece::Black, 36) =~= avail_upto(
            init_grid(),
            ColorPiece::Black,
            32,
        ) + Seq::<(usize, usize)>::empty(),
{
    assert forall|x: int, y: int|
        0 <= x < 8 && 0 <= y < 8 && 32 <= y * 8 + x < 36 implies !placeable(
        init_grid(),
        x,
        y,
        ColorPiece::Black,
    ) by {
        lemma_initial_cell_0_4();
        lemma_initial_cell_1_4();
        lemma_initial_cell_2_4();
        lemma_initial_cell_3_4();
    }
    lemma_avail_stretch(init_grid(), ColorPiece::Black, 32, 36);
}

/// Cells (4..6, 4) of the standard start yield the opening move (5, 4).
#[verifier::rlimit(100)]
#[verifier::spinoff_prover]
proof fn lemma_initial_row_4_right_start()
    ensures
        avail_upto(init_grid(), ColorPiece::Black, 38) =~= avail_upto(
            init_grid(),
            ColorPiece::Black,
            36,
        ) + seq![(5usize, 4usize)],
{
    assert forall|x: int, y: int|
        0 <= x < 8 && 0 <= y < 8 && 36 <= y * 8 + x < 37 implies !placeable(
        init_grid(),
        x,
        y,
        ColorPiece::Black,
    ) by {
        lemma_initial_cell_4_4();
    }
    lemma_avail_stretch(init_grid(), ColorPiece::Black, 36, 37);
    lemma_initial_cell_5_4();
    lemma_avail_step_hit(init_grid(), ColorPiece::Black, 38);
}

/// Cells (6..8, 4) of the standard start yield nothing.
#[verifier::rlimit(100)]
#[verifier::spinoff_prover]
proof fn lemma_initial_row_4_right_rest()
    ensures
        avail_upto(init_grid(), ColorPiece::Black, 40) =~= avail_upto(
            init_grid(),
            ColorPiece::Black,
            38,
        ),
{
    assert forall|x: int, y: int|
        0 <= x < 8 && 0 <= y < 8 && 38 <= y * 8 + x < 40 implies !placeable(
        init_grid(),
        x,
        y,
        ColorPiece::Black,
    ) by {
        lemma_initial_cell_6_4();
        lemma_initial_cell_7_4();
    }
    lemma_avail_stretch(init_grid(), ColorPiece::Black, 38, 40);
}

/// The right half of row 4 contributes its one canonical opening move.
#[verifier::rlimit(100)]
#[verifier::spinoff_prover]
proof fn lemma_initial_row_4_right()
    ensures
        avail_upto(init_grid(), ColorPiece::Black, 40) =~= avail_upto(
            init_grid(),
            ColorPiece::Black,
            36,
        ) + seq![(5usize, 4usize)],
{
    lemma_initial_row_4_right_start();
    lemma_initial_row_4_right_rest();
}

/// Row 4 of the standard start contributes its one canonical opening move.
#[verifier::rlimit(100)]
#[verifier::spinoff_prover]
proof fn lemma_initial_row_4()
    ensures
        avail_upto(init_grid(), ColorPiece::Black, 40) =~= avail_upto(
            init_grid(),
            ColorPiece::Black,
            32,
        ) + seq![(5usize, 4usize)],
{
    lemma_initial_row_4_left();
    lemma_initial_row_4_right();
}

/// The left half of row 5 contributes no legal destination.
#[verifier::rlimit(100)]
#[verifier::spinoff_prover]
proof fn lemma_initial_row_5_left()
    ensures
        avail_upto(init_grid(), ColorPiece::Black, 44) =~= avail_upto(
            init_grid(),
            ColorPiece::Black,
            40,
        ) + Seq::<(usize, usize)>::empty(),
{
    assert forall|x: int, y: int|
        0 <= x < 8 && 0 <= y < 8 && 40 <= y * 8 + x < 44 implies !placeable(
        init_grid(),
        x,
        y,
        ColorPiece::Black,
    ) by {
        lemma_initial_cell_0_5();
        lemma_initial_cell_1_5();
        lemma_initial_cell_2_5();
        lemma_initial_cell_3_5();
    }
    lemma_avail_stretch(init_grid(), ColorPiece::Black, 40, 44);
}

/// The right half of row 5 contributes its one canonical opening move.
#[verifier::rlimit(100)]
#[verifier::spinoff_prover]
proof fn lemma_initial_row_5_right()
    ensures
        avail_upto(init_grid(), ColorPiece::Black, 48) =~= avail_upto(
            init_grid(),
            ColorPiece::Black,
            44,
        ) + seq![(4usize, 5usize)],
{
    lemma_avail_stretch(init_grid(), ColorPiece::Black, 44, 44);
    lemma_initial_cell_4_5();
    lemma_avail_step_hit(init_grid(), ColorPiece::Black, 45);
    assert forall|x: int, y: int|
        0 <= x < 8 && 0 <= y < 8 && 45 <= y * 8 + x < 48 implies !placeable(
        init_grid(),
        x,
        y,
        ColorPiece::Black,
    ) by {
        lemma_initial_cell_5_5();
        lemma_initial_cell_6_5();
        lemma_initial_cell_7_5();
    }
    lemma_avail_stretch(init_grid(), ColorPiece::Black, 45, 48);
}

/// Row 5 of the standard start contributes its one canonical opening move.
#[verifier::rlimit(100)]
#[verifier::spinoff_prover]
proof fn lemma_initial_row_5()
    ensures
        avail_upto(init_grid(), ColorPiece::Black, 48) =~= avail_upto(
            init_grid(),
            ColorPiece::Black,
            40,
        ) + seq![(4usize, 5usize)],
{
    lemma_initial_row_5_left();
    lemma_initial_row_5_right();
}

/// The left half of row 6 contributes no legal destination.
#[verifier::rlimit(100)]
#[verifier::spinoff_prover]
proof fn lemma_initial_row_6_left()
    ensures
        avail_upto(init_grid(), ColorPiece::Black, 52) =~= avail_upto(
            init_grid(),
            ColorPiece::Black,
            48,
        ) + Seq::<(usize, usize)>::empty(),
{
    assert forall|x: int, y: int|
        0 <= x < 8 && 0 <= y < 8 && 48 <= y * 8 + x < 52 implies !placeable(
        init_grid(),
        x,
        y,
        ColorPiece::Black,
    ) by {
        lemma_initial_cell_0_6();
        lemma_initial_cell_1_6();
        lemma_initial_cell_2_6();
        lemma_initial_cell_3_6();
    }
    lemma_avail_stretch(init_grid(), ColorPiece::Black, 48, 52);
}

/// The right half of row 6 contributes no legal destination.
#[verifier::rlimit(100)]
#[verifier::spinoff_prover]
proof fn lemma_initial_row_6_right()
    ensures
        avail_upto(init_grid(), ColorPiece::Black, 56) =~= avail_upto(
            init_grid(),
            ColorPiece::Black,
            52,
        ) + Seq::<(usize, usize)>::empty(),
{
    assert forall|x: int, y: int|
        0 <= x < 8 && 0 <= y < 8 && 52 <= y * 8 + x < 56 implies !placeable(
        init_grid(),
        x,
        y,
        ColorPiece::Black,
    ) by {
        lemma_initial_cell_4_6();
        lemma_initial_cell_5_6();
        lemma_initial_cell_6_6();
        lemma_initial_cell_7_6();
    }
    lemma_avail_stretch(init_grid(), ColorPiece::Black, 52, 56);
}

/// Row 6 of the standard start contributes no legal destination.
#[verifier::rlimit(100)]
#[verifier::spinoff_prover]
proof fn lemma_initial_row_6()
    ensures
        avail_upto(init_grid(), ColorPiece::Black, 56) =~= avail_upto(
            init_grid(),
            ColorPiece::Black,
            48,
        ) + Seq::<(usize, usize)>::empty(),
{
    lemma_initial_row_6_left();
    lemma_initial_row_6_right();
}

/// The left half of row 7 contributes no legal destination.
#[verifier::rlimit(100)]
#[verifier::spinoff_prover]
proof fn lemma_initial_row_7_left()
    ensures
        avail_upto(init_grid(), ColorPiece::Black, 60) =~= avail_upto(
            init_grid(),
            ColorPiece::Black,
            56,
        ) + Seq::<(usize, usize)>::empty(),
{
    assert forall|x: int, y: int|
        0 <= x < 8 && 0 <= y < 8 && 56 <= y * 8 + x < 60 implies !placeable(
        init_grid(),
        x,
        y,
        ColorPiece::Black,
    ) by {
        lemma_initial_cell_0_7();
        lemma_initial_cell_1_7();
        lemma_initial_cell_2_7();
        lemma_initial_cell_3_7();
    }
    lemma_avail_stretch(init_grid(), ColorPiece::Black, 56, 60);
}

/// The right half of row 7 contributes no legal destination.
#[verifier::rlimit(100)]
#[verifier::spinoff_prover]
proof fn lemma_initial_row_7_right()
    ensures
        avail_upto(init_grid(), ColorPiece::Black, 64) =~= avail_upto(
            init_grid(),
            ColorPiece::Black,
            60,
        ) + Seq::<(usize, usize)>::empty(),
{
    assert forall|x: int, y: int|
        0 <= x < 8 && 0 <= y < 8 && 60 <= y * 8 + x < 64 implies !placeable(
        init_grid(),
        x,
        y,
        ColorPiece::Black,
    ) by {
        lemma_initial_cell_4_7();
        lemma_initial_cell_5_7();
        lemma_initial_cell_6_7();
        lemma_initial_cell_7_7();
    }
    lemma_avail_stretch(init_grid(), ColorPiece::Black, 60, 64);
}

/// Row 7 of the standard start contributes no legal destination.
#[verifier::rlimit(100)]
#[verifier::spinoff_prover]
proof fn lemma_initial_row_7()
    ensures
        avail_upto(init_grid(), ColorPiece::Black, 64) =~= avail_upto(
            init_grid(),
            ColorPiece::Black,
            56,
        ) + Seq::<(usize, usize)>::empty(),
{
    lemma_initial_row_7_left();
    lemma_initial_row_7_right();
}

/// The standard start offers the black-playing first player exactly the
/// four canonical opening moves, in scanning order.
#[verifier::rlimit(100)]
#[verifier::spinoff_prover]
pub proof fn lemma_initial_legal_destinations()
    ensures
        available_moves(init_grid(), ColorPiece::Black) == seq![
            (3usize, 2usize),
            (2usize, 3usize),
            (5usize, 4usize),
            (4usize, 5usize),
        ],
{
    lemma_initial_row_0();
    lemma_initial_row_1();
    lemma_initial_row_2();
    lemma_initial_row_3();
    lemma_initial_row_4();
    lemma_initial_row_5();
    lemma_initial_row_6();
    lemma_initial_row_7();
    assert(avail_upto(init_grid(), ColorPiece::Black, 0) =~= Seq::<(usize, usize)>::empty());
    assert(available_moves(init_grid(), ColorPiece::Black) =~= seq![
        (3usize, 2usize),
        (2usize, 3usize),
        (5usize, 4usize),
        (4usize, 5usize),
    ]);
}

} // verus!
