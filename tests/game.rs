use std::convert::TryFrom;

use sudoku_core::digit::Digit;
use sudoku_core::error::SudokuError;
use sudoku_core::game::{DigitPosition, FieldGroupType, Game};

fn d(v: u8) -> Digit {
    Digit::new(v).unwrap()
}

fn contents(game: &Game, i: usize) -> Vec<Option<u8>> {
    game.groups()[i]
        .fields()
        .iter()
        .map(|f| f.content().map(u8::from))
        .collect()
}

fn example_definition() -> [[Option<Digit>; 9]; 9] {
    [
        [Digit::new(1), Digit::new(2), Digit::new(3), None, None, None, None, None, None],
        [Digit::new(1), Digit::new(2), Digit::new(3), None, None, None, None, None, None],
        [Digit::new(1), Digit::new(2), Digit::new(3), None, None, None, None, None, None],
        [Digit::new(1), Digit::new(2), Digit::new(3), None, None, None, None, None, None],
        [Digit::new(1), Digit::new(2), Digit::new(3), None, None, None, None, None, None],
        [Digit::new(1), Digit::new(2), Digit::new(3), None, None, None, None, None, None],
        [Digit::new(1), Digit::new(2), Digit::new(3), None, None, None, None, None, None],
        [Digit::new(1), Digit::new(2), Digit::new(3), None, None, None, None, None, None],
        [Digit::new(1), Digit::new(2), Digit::new(3), None, None, None, None, None, None],
    ]
}

#[test]
fn game_creation_with_array_works() {
    let game = Game::from(example_definition());
    assert_eq!(game.groups().get(0).unwrap().group_type(), FieldGroupType::Row(0));
    assert_eq!(game.groups().get(18).unwrap().group_type(), FieldGroupType::Shape(0));
}

#[test]
fn game_creation_with_positions() {
    let game = Game::try_from(vec![DigitPosition {
        content: Digit::new(1).unwrap(),
        pos_x: 0,
        pos_y: 0,
    }]);
    assert_eq!(
        game.as_ref().unwrap().groups().get(0).unwrap().group_type(),
        FieldGroupType::Row(0)
    );
    assert_eq!(
        game.as_ref().unwrap().groups().get(18).unwrap().group_type(),
        FieldGroupType::Shape(0)
    );
}

#[test]
fn example_groups_hold_the_expected_fields() {
    let game = Game::from(example_definition());
    let row = vec![Some(1), Some(2), Some(3), None, None, None, None, None, None];
    assert_eq!(contents(&game, 0), row);
    assert_eq!(contents(&game, 9), vec![Some(1); 9]);
    assert_eq!(contents(&game, 10), vec![Some(2); 9]);
    assert_eq!(contents(&game, 12), vec![None; 9]);
    assert_eq!(
        contents(&game, 18),
        vec![Some(1), Some(2), Some(3), Some(1), Some(2), Some(3), Some(1), Some(2), Some(3)]
    );
    assert_eq!(contents(&game, 19), vec![None; 9]);
    assert_eq!(game.groups()[9].group_type(), FieldGroupType::Column(0));
    assert_eq!(game.groups()[26].group_type(), FieldGroupType::Shape(8));
}

#[test]
fn every_game_has_twenty_seven_groups_of_nine() {
    let game = Game::from(example_definition());
    assert_eq!(game.groups().len(), 27);
    for g in game.groups().iter() {
        assert_eq!(g.fields().len(), 9);
    }
    assert_eq!(game.grid().len(), 9);
}

#[test]
fn groups_come_in_row_column_shape_order() {
    let game = Game::from([[None; 9]; 9]);
    for i in 0..9u8 {
        let i_us = usize::from(i);
        assert_eq!(game.groups()[i_us].group_type(), FieldGroupType::Row(i));
        assert_eq!(game.groups()[9 + i_us].group_type(), FieldGroupType::Column(i));
        assert_eq!(game.groups()[18 + i_us].group_type(), FieldGroupType::Shape(i));
    }
}

#[test]
fn each_cell_lies_in_its_shape() {
    let mut definition: [[Option<Digit>; 9]; 9] = [[None; 9]; 9];
    for r in 0..9 {
        for c in 0..9 {
            definition[r][c] = Digit::new(((r * 9 + c) % 9 + 1) as u8);
        }
    }
    let game = Game::from(definition);
    for r in 0..9 {
        for c in 0..9 {
            let shape = (r / 3) * 3 + c / 3;
            let group = &game.groups()[18 + shape];
            assert_eq!(group.group_type(), FieldGroupType::Shape(shape as u8));
            let place = (r % 3) * 3 + c % 3;
            assert_eq!(group.fields()[place].content(), definition[r][c]);
            assert_eq!(game.grid()[r][c].content(), definition[r][c]);
            assert_eq!(game.groups()[r].fields()[c].content(), definition[r][c]);
            assert_eq!(game.groups()[9 + c].fields()[r].content(), definition[r][c]);
        }
    }
}

#[test]
fn sparse_and_dense_give_the_same_groups() {
    let positions = vec![
        DigitPosition { content: d(5), pos_x: 0, pos_y: 0 },
        DigitPosition { content: d(7), pos_x: 4, pos_y: 8 },
        DigitPosition { content: d(9), pos_x: 8, pos_y: 2 },
    ];
    let mut definition: [[Option<Digit>; 9]; 9] = [[None; 9]; 9];
    definition[0][0] = Some(d(5));
    definition[4][8] = Some(d(7));
    definition[8][2] = Some(d(9));
    let sparse = Game::try_from(positions).unwrap();
    let dense = Game::from(definition);
    for i in 0..27 {
        assert_eq!(sparse.groups()[i].group_type(), dense.groups()[i].group_type());
        assert_eq!(contents(&sparse, i), contents(&dense, i));
    }
    assert_eq!(contents(&sparse, 4)[8], Some(7));
    assert_eq!(contents(&sparse, 9 + 2)[8], Some(9));
}

#[test]
fn later_position_wins_on_the_same_cell() {
    let positions = vec![
        DigitPosition { content: d(3), pos_x: 2, pos_y: 6 },
        DigitPosition { content: d(8), pos_x: 2, pos_y: 6 },
    ];
    let game = Game::try_from(positions).unwrap();
    assert_eq!(game.grid()[2][6].content(), Some(d(8)));
}

#[test]
fn empty_position_list_gives_empty_board() {
    let game = Game::try_from(Vec::new()).unwrap();
    for i in 0..27 {
        assert_eq!(contents(&game, i), vec![None; 9]);
    }
}

#[test]
fn position_on_the_boundary_is_rejected() {
    let bad_row = vec![
        DigitPosition { content: d(1), pos_x: 0, pos_y: 0 },
        DigitPosition { content: d(2), pos_x: 9, pos_y: 0 },
    ];
    assert_eq!(Game::try_from(bad_row).err(), Some(SudokuError::InvalidPosition));
    let bad_column = vec![DigitPosition { content: d(2), pos_x: 8, pos_y: 9 }];
    assert_eq!(Game::try_from(bad_column).err(), Some(SudokuError::InvalidPosition));
    let corner = vec![DigitPosition { content: d(4), pos_x: 8, pos_y: 8 }];
    assert_eq!(
        Game::try_from(corner).unwrap().grid()[8][8].content(),
        Some(d(4))
    );
}
