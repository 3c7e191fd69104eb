use vstd::prelude::*;

use crate::digit::Digit;
use crate::error::SudokuError;

verus! {

/// The kind of a constraint group, with its 0-based index among groups of
/// that kind.
#[derive(Debug, Clone, Copy, PartialEq, Eq, Structural)]
pub enum FieldGroupType {
    Row(u8),
    Column(u8),
    Shape(u8),
}

/// One cell of the board: empty, or holding a digit.
#[derive(Debug, Clone, Copy, PartialEq, Eq, Structural)]
pub struct Field {
    content: Option<Digit>,
}

/// The nine fields of one row, column or 3×3 shape, tagged with its type.
#[derive(Debug, Clone, Copy)]
pub struct FieldGroup {
    fields: [Field; 9],
    group_type: FieldGroupType,
}

/// A single filled cell: a digit at row `pos_x` and column `pos_y`.
#[derive(Debug, Clone, Copy, PartialEq, Eq, Structural)]
pub struct DigitPosition {
    pub content: Digit,
    pub pos_x: u8,
    pub pos_y: u8,
}

/// A 9×9 board and its 27 groups: the nine rows, then the nine columns, then
/// the nine shapes.
#[derive(Debug, Clone, Copy)]
pub struct Game {
    grid: [[Field; 9]; 9],
    groups: [FieldGroup; 27],
}

/// What a group holds: its type and the contents of its fields, in order.
pub struct FieldGroupView {
    pub group_type: FieldGroupType,
    pub fields: Seq<Option<Digit>>,
}

/// What a game holds: the contents of the grid, row by row, and its groups.
pub struct GameView {
    pub grid: Seq<Seq<Option<Digit>>>,
    pub groups: Seq<FieldGroupView>,
}

impl View for Field {
    type V = Option<Digit>;

    closed spec fn view(&self) -> Option<Digit> {
        self.content
    }
}

impl View for FieldGroup {
    type V = FieldGroupView;

    closed spec fn view(&self) -> FieldGroupView {
        FieldGroupView {
            group_type: self.group_type,
            fields: self.fields@.map_values(|f: Field| f@),
        }
    }
}

impl View for Game {
    type V = GameView;

    closed spec fn view(&self) -> GameView {
        GameView {
            grid: self.grid@.map_values(|row: [Field; 9]| row@.map_values(|f: Field| f@)),
            groups: self.groups@.map_values(|g: FieldGroup| g@),
        }
    }
}

/// The type of the group at index `i` of a game's group list.
pub open spec fn group_type_of(i: int) -> FieldGroupType {
    if i < 9 {
        FieldGroupType::Row(i as u8)
    } else if i < 18 {
        FieldGroupType::Column((i - 9) as u8)
    } else {
        FieldGroupType::Shape((i - 18) as u8)
    }
}

/// The board coordinates (row, column) of the `j`-th field of group `i`:
/// rows left to right, columns top to bottom, shapes row-major.
pub open spec fn group_cell(i: int, j: int) -> (int, int) {
    if i < 9 {
        (i, j)
    } else if i < 18 {
        (j, i - 9)
    } else {
        (((i - 18) / 3) * 3 + j / 3, ((i - 18) % 3) * 3 + j % 3)
    }
}

/// The index in the group list of the shape that holds cell (r, c).
pub open spec fn shape_index_of(r: int, c: int) -> int {
    18 + (r / 3) * 3 + c / 3
}

/// A 9×9 table of cell contents.
pub open spec fn is_board(cells: Seq<Seq<Option<Digit>>>) -> bool {
    &&& cells.len() == 9
    &&& forall|r: int| 0 <= r < 9 ==> #[trigger] cells[r].len() == 9
}

/// The game that the board `cells` gives.
pub open spec fn built_view(cells: Seq<Seq<Option<Digit>>>) -> GameView {
    GameView {
        grid: cells,
        groups: Seq::new(
            27,
            |i: int|
                FieldGroupView {
                    group_type: group_type_of(i),
                    fields: Seq::new(9, |j: int| cells[group_cell(i, j).0][group_cell(i, j).1]),
                },
        ),
    }
}

/// The board of a dense definition.
pub open spec fn definition_cells(definition: [[Option<Digit>; 9]; 9]) -> Seq<Seq<Option<Digit>>> {
    definition@.map_values(|row: [Option<Digit>; 9]| row@)
}

/// What a list of positions puts at cell (r, c): the digit of the last
/// position aimed at that cell, or nothing.
pub open spec fn sparse_cell(positions: Seq<DigitPosition>, r: int, c: int) -> Option<Digit>
    decreases positions.len(),
{
    if positions.len() == 0 {
        None
    } else {
        let p = positions.last();
        if p.pos_x == r && p.pos_y == c {
            Some(p.content)
        } else {
            sparse_cell(positions.drop_last(), r, c)
        }
    }
}

/// The board of a sparse definition.
pub open spec fn sparse_cells(positions: Seq<DigitPosition>) -> Seq<Seq<Option<Digit>>> {
    Seq::new(9, |r: int| Seq::new(9, |c: int| sparse_cell(positions, r, c)))
}

/// Every position of the list has both coordinates below 9.
pub open spec fn positions_valid(positions: Seq<DigitPosition>) -> bool {
    forall|k: int| 0 <= k < positions.len() ==> #[trigger] positions[k].pos_x < 9 && positions[k].pos_y < 9
}

/// The game whose view is the one that the board `cells` gives.
pub open spec fn game_of(cells: Seq<Seq<Option<Digit>>>) -> Game {
    choose|g: Game| g@ == built_view(cells)
}

/// The type of group `i`.
fn group_type_at(i: usize) -> (t: FieldGroupType)
    requires
        i < 27,
    ensures
        t == group_type_of(i as int),
{
    if i < 9 {
        FieldGroupType::Row(i as u8)
    } else if i < 18 {
        FieldGroupType::Column((i - 9) as u8)
    } else {
        FieldGroupType::Shape((i - 18) as u8)
    }
}

/// The board coordinates of field `j` of group `i`.
fn cell_at(i: usize, j: usize) -> (rc: (usize, usize))
    requires
        i < 27,
        j < 9,
    ensures
        rc.0 as int == group_cell(i as int, j as int).0,
        rc.1 as int == group_cell(i as int, j as int).1,
        rc.0 < 9,
        rc.1 < 9,
{
    if i < 9 {
        (i, j)
    } else if i < 18 {
        (j, i - 9)
    } else {
        let s = i - 18;
        ((s / 3) * 3 + j / 3, (s % 3) * 3 + j % 3)
    }
}

/// The group at index `i` of the group list of the board `grid`.
fn group_of(grid: &[[Field; 9]; 9], i: usize) -> (g: FieldGroup)
    requires
        i < 27,
    ensures
        g@.group_type == group_type_of(i as int),
        g@.fields == Seq::new(
            9,
            |j: int| grid[group_cell(i as int, j).0][group_cell(i as int, j).1]@,
        ),
{
    let mut fields: [Field; 9] = [Field { content: None }; 9];
    let mut j: usize = 0;
    while j < 9
        invariant
            i < 27,
            j <= 9,
            forall|k: int|
                0 <= k < j ==> #[trigger] fields[k] == grid[group_cell(i as int, k).0][group_cell(
                    i as int,
                    k,
                ).1],
        decreases 9 - j,
    {
        let (r, c) = cell_at(i, j);
        fields[j] = grid[r][c];
        j += 1;
    }
    let g = FieldGroup { fields, group_type: group_type_at(i) };
    assert(g@.fields =~= Seq::new(
        9,
        |j: int| grid[group_cell(i as int, j).0][group_cell(i as int, j).1]@,
    ));
    g
}

impl Game {
    /// The game of a dense definition: the grid holds the definition as it
    /// is, and the groups are read off the grid.
    fn build(definition: [[Option<Digit>; 9]; 9]) -> (g: Game)
        ensures
            g@ == built_view(definition_cells(definition)),
    {
        let empty = Field { content: None };
        let mut grid: [[Field; 9]; 9] = [[empty; 9]; 9];
        let mut r: usize = 0;
        while r < 9
            invariant
                r <= 9,
                forall|a: int, b: int|
                    0 <= a < r && 0 <= b < 9 ==> (#[trigger] grid[a][b])@ == definition[a][b],
            decreases 9 - r,
        {
            let mut row: [Field; 9] = [empty; 9];
            let mut c: usize = 0;
            while c < 9
                invariant
                    r < 9,
                    c <= 9,
                    forall|b: int| 0 <= b < c ==> (#[trigger] row[b])@ == definition[r as int][b],
                decreases 9 - c,
            {
                row[c] = Field { content: definition[r][c] };
                c += 1;
            }
            grid[r] = row;
            r += 1;
        }
        let ghost cells = definition_cells(definition);
        let ghost expected = built_view(cells);
        let mut groups: [FieldGroup; 27] = [FieldGroup {
            fields: [empty; 9],
            group_type: FieldGroupType::Row(0),
        }; 27];
        let mut i: usize = 0;
        while i < 27
            invariant
                i <= 27,
                cells == definition_cells(definition),
                expected == built_view(cells),
                forall|a: int, b: int|
                    0 <= a < 9 && 0 <= b < 9 ==> (#[trigger] grid[a][b])@ == cells[a][b],
                forall|a: int| 0 <= a < i ==> (#[trigger] groups[a])@ == expected.groups[a],
            decreases 27 - i,
        {
            let g = group_of(&grid, i);
            assert(g@.fields =~= expected.groups[i as int].fields);
            groups[i] = g;
            i += 1;
        }
        let game = Game { grid, groups };
        assert(game@.grid =~~= cells);
        assert(game@.groups =~= expected.groups);
        game
    }
}

/// Every game has 27 groups of nine fields each, over a 9×9 grid.
pub proof fn lemma_group_sizes(g: Game)
    ensures
        g@.grid.len() == 9,
        forall|r: int| 0 <= r < 9 ==> #[trigger] g@.grid[r].len() == 9,
        g@.groups.len() == 27,
        forall|i: int| 0 <= i < 27 ==> #[trigger] g@.groups[i].fields.len() == 9,
{
}

/// A game is determined by its view.
proof fn lemma_view_determines(a: Game, b: Game)
    requires
        a@ == b@,
    ensures
        a == b,
{
    assert forall|r: int| 0 <= r < 9 implies a.grid[r] == b.grid[r] by {
        assert forall|c: int| 0 <= c < 9 implies a.grid[r][c] == b.grid[r][c] by {
            assert(a@.grid[r][c] == b@.grid[r][c]);
        }
        assert(a.grid[r] =~= b.grid[r]);
    }
    assert(a.grid =~= b.grid);
    assert forall|i: int| 0 <= i < 27 implies a.groups[i] == b.groups[i] by {
        assert(a@.groups[i] == b@.groups[i]);
        assert forall|j: int| 0 <= j < 9 implies a.groups[i].fields[j] == b.groups[i].fields[j] by {
            assert(a@.groups[i].fields[j] == b@.groups[i].fields[j]);
        }
        assert(a.groups[i].fields =~= b.groups[i].fields);
    }
    assert(a.groups =~= b.groups);
}

/// A game whose view is the one that `cells` gives is the game `game_of(cells)`.
proof fn lemma_game_of(g: Game, cells: Seq<Seq<Option<Digit>>>)
    requires
        g@ == built_view(cells),
    ensures
        g == game_of(cells),
{
    lemma_view_determines(g, game_of(cells));
}

/// The array whose first `n` elements are those of `s`, the rest `fill`.
spec fn array_of<T: Copy, const N: usize>(s: Seq<T>, fill: T, n: nat) -> [T; N]
    decreases n,
{
    if n == 0 {
        vstd::array::spec_array_fill_for_copy_type::<T, N>(fill)
    } else {
        vstd::array::spec_array_update(array_of::<T, N>(s, fill, (n - 1) as nat), n - 1, s[n - 1])
    }
}

/// `array_of` holds the first `n` elements of `s` in place.
proof fn lemma_array_of<T: Copy, const N: usize>(s: Seq<T>, fill: T, n: nat)
    requires
        n <= N,
        n <= s.len(),
    ensures
        forall|i: int| 0 <= i < n ==> #[trigger] array_of::<T, N>(s, fill, n)@[i] == s[i],
    decreases n,
{
    if n > 0 {
        let prev = array_of::<T, N>(s, fill, (n - 1) as nat);
        lemma_array_of::<T, N>(s, fill, (n - 1) as nat);
        assert(vstd::array::spec_array_update(prev, n - 1, s[n - 1])@ == prev@.update(
            n - 1,
            s[n - 1],
        ));
    }
}

/// Every 9×9 board has a game built from it, so `game_of` names that game.
pub proof fn lemma_game_of_view(cells: Seq<Seq<Option<Digit>>>)
    requires
        is_board(cells),
    ensures
        game_of(cells)@ == built_view(cells),
{
    let empty = Field { content: None };
    let expected = built_view(cells);
    let rows = Seq::new(
        9,
        |r: int| array_of::<Field, 9>(Seq::new(9, |c: int| Field { content: cells[r][c] }), empty, 9),
    );
    let groups = Seq::new(
        27,
        |i: int|
            FieldGroup {
                fields: array_of::<Field, 9>(
                    Seq::new(9, |j: int| Field { content: expected.groups[i].fields[j] }),
                    empty,
                    9,
                ),
                group_type: group_type_of(i),
            },
    );
    let grid = array_of::<[Field; 9], 9>(rows, rows[0], 9);
    let group_list = array_of::<FieldGroup, 27>(groups, groups[0], 27);
    lemma_array_of::<[Field; 9], 9>(rows, rows[0], 9);
    lemma_array_of::<FieldGroup, 27>(groups, groups[0], 27);
    let witness = Game { grid, groups: group_list };
    assert forall|r: int| 0 <= r < 9 implies #[trigger] witness@.grid[r] == cells[r] by {
        lemma_array_of::<Field, 9>(Seq::new(9, |c: int| Field { content: cells[r][c] }), empty, 9);
        assert(witness@.grid[r] =~= cells[r]);
    }
    assert(witness@.grid =~= cells);
    assert forall|i: int| 0 <= i < 27 implies #[trigger] witness@.groups[i] == expected.groups[i] by {
        lemma_array_of::<Field, 9>(
            Seq::new(9, |j: int| Field { content: expected.groups[i].fields[j] }),
            empty,
            9,
        );
        assert(witness@.groups[i].fields =~= expected.groups[i].fields);
    }
    assert(witness@.groups =~= expected.groups);
    lemma_game_of(witness, cells);
}

/// Builds the game of a dense definition; it always succeeds. Its result is
/// `game_of(definition_cells(definition))`, whose view `lemma_game_of_view`
/// gives.
impl From<[[Option<Digit>; 9]; 9]> for Game {
    fn from(definition: [[Option<Digit>; 9]; 9]) -> (g: Game) {
        let g = Game::build(definition);
        proof {
            lemma_game_of(g, definition_cells(definition));
        }
        g
    }
}

impl vstd::std_specs::convert::FromSpecImpl<[[Option<Digit>; 9]; 9]> for Game {
    open spec fn obeys_from_spec() -> bool {
        true
    }

    open spec fn from_spec(definition: [[Option<Digit>; 9]; 9]) -> Game {
        game_of(definition_cells(definition))
    }
}

/// Builds the game of a sparse definition: `InvalidPosition` if any position
/// has a coordinate of 9 or more, else the game of the board on which each
/// cell holds the digit of the last position aimed at it, or nothing.
impl TryFrom<Vec<DigitPosition>> for Game {
    type Error = SudokuError;

    fn try_from(positions: Vec<DigitPosition>) -> (r: Result<Game, SudokuError>) {
        let mut k: usize = 0;
        while k < positions.len()
            invariant
                k <= positions@.len(),
                forall|m: int| 0 <= m < k ==> #[trigger] positions@[m].pos_x < 9 && positions@[m].pos_y < 9,
            decreases positions@.len() - k,
        {
            let p = positions[k];
            if p.pos_x >= 9 || p.pos_y >= 9 {
                return Err(SudokuError::InvalidPosition);
            }
            k += 1;
        }
        let mut definition: [[Option<Digit>; 9]; 9] = [[None; 9]; 9];
        let mut k: usize = 0;
        while k < positions.len()
            invariant
                k <= positions@.len(),
                positions_valid(positions@),
                forall|a: int, b: int|
                    0 <= a < 9 && 0 <= b < 9 ==> #[trigger] definition[a][b] == sparse_cell(
                        positions@.take(k as int),
                        a,
                        b,
                    ),
            decreases positions@.len() - k,
        {
            let p = positions[k];
            let x = p.pos_x as usize;
            let y = p.pos_y as usize;
            let mut row = definition[x];
            row[y] = Some(p.content);
            definition[x] = row;
            assert(positions@.take(k + 1).drop_last() =~= positions@.take(k as int));
            k += 1;
        }
        assert(positions@.take(positions@.len() as int) =~= positions@);
        assert(definition_cells(definition) =~~= sparse_cells(positions@));
        Ok(Game::from(definition))
    }
}

impl vstd::std_specs::convert::TryFromSpecImpl<Vec<DigitPosition>> for Game {
    open spec fn obeys_try_from_spec() -> bool {
        true
    }

    open spec fn try_from_spec(positions: Vec<DigitPosition>) -> Result<Game, SudokuError> {
        if positions_valid(positions@) {
            Ok(game_of(sparse_cells(positions@)))
        } else {
            Err(SudokuError::InvalidPosition)
        }
    }
}

impl Field {
    /// What the field holds.
    pub fn content(&self) -> (r: Option<Digit>)
        ensures
            r == self@,
    {
        self.content
    }
}

impl FieldGroup {
    /// The type of the group.
    pub fn group_type(&self) -> (r: FieldGroupType)
        ensures
            r == self@.group_type,
    {
        self.group_type
    }

    /// The fields of the group, in order.
    pub fn fields(&self) -> (r: [Field; 9])
        ensures
            r@.map_values(|f: Field| f@) == self@.fields,
    {
        self.fields
    }
}

impl Game {
    /// The grid, row by row.
    pub fn grid(&self) -> (r: &[[Field; 9]; 9])
        ensures
            r@.map_values(|row: [Field; 9]| row@.map_values(|f: Field| f@)) == self@.grid,
    {
        &self.grid
    }

    /// The groups: the nine rows, then the nine columns, then the nine shapes.
    pub fn groups(&self) -> (r: &[FieldGroup; 27])
        ensures
            r@.map_values(|g: FieldGroup| g@) == self@.groups,
    {
        &self.groups
    }
}

} // verus!
