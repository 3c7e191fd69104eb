use vstd::prelude::*;

use crate::digit::Digit;
use crate::error::SudokuError;
use crate::game::{
    built_view, definition_cells, game_of, group_cell, is_board,
    positions_valid, shape_index_of, sparse_cell, sparse_cells, DigitPosition, FieldGroupType,
    Game,
};

verus! {

/// The groups of a built game come in a fixed order: rows 0 to 8 at indices
/// 0 to 8, columns at 9 to 17 and shapes at 18 to 26.
pub proof fn lemma_group_order(cells: Seq<Seq<Option<Digit>>>)
    ensures
        built_view(cells).groups[0].group_type == FieldGroupType::Row(0),
        built_view(cells).groups[9].group_type == FieldGroupType::Column(0),
        built_view(cells).groups[18].group_type == FieldGroupType::Shape(0),
        forall|i: int|
            0 <= i < 9 ==> #[trigger] built_view(cells).groups[i].group_type
                == FieldGroupType::Row(i as u8),
        forall|i: int|
            9 <= i < 18 ==> #[trigger] built_view(cells).groups[i].group_type
                == FieldGroupType::Column((i - 9) as u8),
        forall|i: int|
            18 <= i < 27 ==> #[trigger] built_view(cells).groups[i].group_type
                == FieldGroupType::Shape((i - 18) as u8),
{
}

/// The cell (r, c) lies in the shape with index (r / 3) * 3 + c / 3 among
/// the shapes, at place (r % 3) * 3 + c % 3 within it.
pub proof fn lemma_shape_membership(cells: Seq<Seq<Option<Digit>>>, r: int, c: int)
    requires
        is_board(cells),
        0 <= r < 9,
        0 <= c < 9,
    ensures
        shape_index_of(r, c) == 18 + (r / 3) * 3 + c / 3,
        built_view(cells).groups[shape_index_of(r, c)].group_type == FieldGroupType::Shape(
            ((r / 3) * 3 + c / 3) as u8,
        ),
        built_view(cells).groups[shape_index_of(r, c)].fields[(r % 3) * 3 + c % 3] == cells[r][c],
        built_view(cells).groups[shape_index_of(r, c)].fields.contains(cells[r][c]),
{
    let i = shape_index_of(r, c);
    let j = (r % 3) * 3 + c % 3;
    assert(group_cell(i, j) == (r, c));
    assert(built_view(cells).groups[i].fields[j] == cells[r][c]);
}

/// No two positions of the list aim at the same cell.
pub open spec fn coordinates_distinct(positions: Seq<DigitPosition>) -> bool {
    forall|a: int, b: int|
        0 <= a < b < positions.len() ==> !(positions[a].pos_x == positions[b].pos_x
            && positions[a].pos_y == positions[b].pos_y)
}

/// The dense definition holds the digit of each position at its cell, and
/// nothing at the cells that no position aims at.
pub open spec fn dense_matches_sparse(
    definition: [[Option<Digit>; 9]; 9],
    positions: Seq<DigitPosition>,
) -> bool {
    &&& forall|k: int|
        0 <= k < positions.len() ==> definition[#[trigger] positions[k].pos_x as int][positions[k].pos_y as int]
            == Some(positions[k].content)
    &&& forall|r: int, c: int|
        0 <= r < 9 && 0 <= c < 9 && (forall|k: int|
            0 <= k < positions.len() ==> !(#[trigger] positions[k].pos_x == r && positions[k].pos_y == c))
            ==> #[trigger] definition[r][c] is None
}

proof fn lemma_sparse_cell_hit(positions: Seq<DigitPosition>, k: int, r: int, c: int)
    requires
        coordinates_distinct(positions),
        0 <= k < positions.len(),
        positions[k].pos_x == r,
        positions[k].pos_y == c,
    ensures
        sparse_cell(positions, r, c) == Some(positions[k].content),
    decreases positions.len(),
{
    if k < positions.len() - 1 {
        let rest = positions.drop_last();
        assert(rest[k] == positions[k]);
        lemma_sparse_cell_hit(rest, k, r, c);
    }
}

proof fn lemma_sparse_cell_miss(positions: Seq<DigitPosition>, r: int, c: int)
    requires
        forall|k: int|
            0 <= k < positions.len() ==> !(#[trigger] positions[k].pos_x == r && positions[k].pos_y == c),
    ensures
        sparse_cell(positions, r, c) is None,
    decreases positions.len(),
{
    if positions.len() > 0 {
        let rest = positions.drop_last();
        assert forall|k: int| 0 <= k < rest.len() implies !(#[trigger] rest[k].pos_x == r
            && rest[k].pos_y == c) by {
            assert(rest[k] == positions[k]);
        }
        assert(positions.last() == positions[positions.len() - 1]);
        lemma_sparse_cell_miss(rest, r, c);
    }
}

/// A list of valid positions with distinct coordinates gives the same board,
/// and so the same groups and the same game, as the dense definition that
/// holds the same digits at the same cells and nothing elsewhere.
pub proof fn lemma_sparse_matches_dense(
    positions: Seq<DigitPosition>,
    definition: [[Option<Digit>; 9]; 9],
)
    requires
        positions_valid(positions),
        coordinates_distinct(positions),
        dense_matches_sparse(definition, positions),
    ensures
        sparse_cells(positions) == definition_cells(definition),
        built_view(sparse_cells(positions)).groups == built_view(definition_cells(definition)).groups,
        game_of(sparse_cells(positions)) == game_of(definition_cells(definition)),
{
    assert forall|r: int, c: int| 0 <= r < 9 && 0 <= c < 9 implies sparse_cell(positions, r, c)
        == #[trigger] definition[r][c] by {
        if exists|k: int| 0 <= k < positions.len() && #[trigger] positions[k].pos_x == r && positions[k].pos_y == c {
            let k = choose|k: int| 0 <= k < positions.len() && #[trigger] positions[k].pos_x == r && positions[k].pos_y == c;
            lemma_sparse_cell_hit(positions, k, r, c);
        } else {
            lemma_sparse_cell_miss(positions, r, c);
        }
    }
    assert(sparse_cells(positions) =~~= definition_cells(definition));
}

/// A list with a position whose row or column is 9 or more gives no game.
pub proof fn lemma_boundary_rejection(positions: Vec<DigitPosition>, k: int)
    requires
        0 <= k < positions@.len(),
        positions@[k].pos_x >= 9 || positions@[k].pos_y >= 9,
    ensures
        <Game as vstd::std_specs::convert::TryFromSpec<Vec<DigitPosition>>>::try_from_spec(positions)
            == Err::<Game, SudokuError>(SudokuError::InvalidPosition),
{
}

} // verus!
