//! The falling-block game: pieces, the board, line clearing, scoring, and
//! the game state machine. Time comes in from the host as millisecond
//! ticks, so every rule here is a pure function of state and tick.

use vstd::prelude::*;

verus! {

/// The game's control state.
#[derive(Debug, Clone, PartialEq, Eq, Structural)]
pub enum GameState {
    Playing,
    Paused,
    GameOver,
    Menu,
}

/// The seven piece kinds.
#[derive(Debug, Clone, Copy, PartialEq, Eq, Structural)]
pub enum TetrominoType {
    I,
    O,
    T,
    S,
    Z,
    J,
    L,
}

/// Cell colours: one per piece kind, grey for settled blocks, black for
/// empty cells.
#[derive(Debug, Clone, Copy, PartialEq, Eq, Structural)]
pub enum Color {
    Cyan,
    Yellow,
    Purple,
    Green,
    Red,
    Blue,
    Orange,
    Gray,
    Black,
}

impl View for Color {
    type V = Color;

    open spec fn view(&self) -> Color {
        *self
    }
}

impl DeepView for Color {
    type V = Color;

    open spec fn deep_view(&self) -> Color {
        *self
    }
}

/// The square cell mask of a piece kind in its spawn orientation.
pub open spec fn spec_shape_of(kind: TetrominoType) -> Seq<Seq<bool>> {
    match kind {
        TetrominoType::I => seq![
            seq![false, false, false, false],
            seq![true, true, true, true],
            seq![false, false, false, false],
            seq![false, false, false, false],
        ],
        TetrominoType::O => seq![seq![true, true], seq![true, true]],
        TetrominoType::T => seq![
            seq![false, true, false],
            seq![true, true, true],
            seq![false, false, false],
        ],
        TetrominoType::S => seq![
            seq![false, true, true],
            seq![true, true, false],
            seq![false, false, false],
        ],
        TetrominoType::Z => seq![
            seq![true, true, false],
            seq![false, true, true],
            seq![false, false, false],
        ],
        TetrominoType::J => seq![
            seq![true, false, false],
            seq![true, true, true],
            seq![false, false, false],
        ],
        TetrominoType::L => seq![
            seq![false, false, true],
            seq![true, true, true],
            seq![false, false, false],
        ],
    }
}

/// The colour of a piece kind.
pub open spec fn spec_color_of(kind: TetrominoType) -> Color {
    match kind {
        TetrominoType::I => Color::Cyan,
        TetrominoType::O => Color::Yellow,
        TetrominoType::T => Color::Purple,
        TetrominoType::S => Color::Green,
        TetrominoType::Z => Color::Red,
        TetrominoType::J => Color::Blue,
        TetrominoType::L => Color::Orange,
    }
}

/// A falling piece: its kind, colour, cell mask and board position.
#[derive(Debug)]
pub struct Tetromino {
    pub tetromino_type: TetrominoType,
    pub color: Color,
    pub shape: Vec<Vec<bool>>,
    pub x: i32,
    pub y: i32,
    pub rotation: u8,
}

/// A square cell mask no wider than four.
pub open spec fn spec_shape_wf(shape: Seq<Seq<bool>>) -> bool {
    &&& shape.len() <= 4
    &&& forall|r: int| 0 <= r < shape.len() ==> (#[trigger] shape[r]).len() == shape.len()
}

/// The mask rotated a quarter turn clockwise.
pub open spec fn spec_rotated(shape: Seq<Seq<bool>>) -> Seq<Seq<bool>> {
    Seq::new(shape.len(), |r: int| Seq::new(shape.len(), |c: int| shape[shape.len() - 1 - c][r]))
}

/// A piece cell that breaks any placement condition refutes the whole
/// placement.
proof fn lemma_invalid_witness(
    grid: Seq<Seq<Color>>,
    width: int,
    height: int,
    shape: Seq<Seq<bool>>,
    x: int,
    y: int,
    row: int,
    col: int,
)
    requires
        0 <= row < shape.len(),
        0 <= col < shape[row].len(),
        shape[row][col],
        !({
            &&& 0 <= x + col < width
            &&& 0 <= y + row < height
            &&& 0 <= y + row < grid.len()
            &&& 0 <= x + col < grid[y + row].len()
            &&& grid[y + row][x + col] == Color::Black
        }),
    ensures
        !spec_valid_position(grid, width, height, shape, x, y),
{
    if spec_valid_position(grid, width, height, shape, x, y) {
        assert(shape[row][col]);
        assert({
            &&& 0 <= x + col < width
            &&& 0 <= y + row < height
            &&& 0 <= y + row < grid.len()
            &&& 0 <= x + col < grid[y + row].len()
            &&& grid[y + row][x + col] == Color::Black
        });
    }
}

/// A row of cells viewed deeply is the row itself.
proof fn lemma_color_row_view(v: Vec<Color>)
    ensures
        v.deep_view() == v@,
{
    assert(v.deep_view() =~= v@);
}

/// A row of mask cells viewed deeply is the row itself.
proof fn lemma_bool_row_view(v: Vec<bool>)
    ensures
        v.deep_view() == v@,
{
    assert(v.deep_view() =~= v@);
}

/// Copies a cell mask.
fn clone_shape(shape: &Vec<Vec<bool>>) -> (r: Vec<Vec<bool>>)
    ensures
        r.deep_view() == shape.deep_view(),
{
    let mut out: Vec<Vec<bool>> = Vec::new();
    let mut i: usize = 0;
    while i < shape.len()
        invariant
            i <= shape@.len(),
            out@.len() == i,
            forall|j: int| 0 <= j < i ==> (#[trigger] out@[j])@ == shape@[j]@,
        decreases shape@.len() - i,
    {
        let row = shape[i].clone();
        proof {
            assert(row@ =~= shape@[i as int]@);
        }
        out.push(row);
        i = i + 1;
    }
    proof {
        assert(out.deep_view() =~~= shape.deep_view());
    }
    out
}

impl Clone for Tetromino {
    /// A clone carries the same kind, mask and position.
    fn clone(&self) -> (r: Self)
        ensures
            r.tetromino_type == self.tetromino_type,
            r.color == self.color,
            r.shape.deep_view() == self.shape.deep_view(),
            r.x == self.x,
            r.y == self.y,
            r.rotation == self.rotation,
    {
        Tetromino {
            tetromino_type: self.tetromino_type,
            color: self.color,
            shape: clone_shape(&self.shape),
            x: self.x,
            y: self.y,
            rotation: self.rotation,
        }
    }
}

impl Tetromino {
    /// The mask is square and small.
    pub open spec fn wf(&self) -> bool {
        spec_shape_wf(self.shape.deep_view())
    }

    /// A piece of the given kind at the spawn position.
    pub fn new(tetromino_type: TetrominoType) -> (r: Tetromino)
        ensures
            r.tetromino_type == tetromino_type,
            r.color == spec_color_of(tetromino_type),
            r.shape.deep_view() == spec_shape_of(tetromino_type),
            r.x == 3,
            r.y == 0,
            r.rotation == 0,
            r.wf(),
    {
        let shape: Vec<Vec<bool>> = match tetromino_type {
            TetrominoType::I => vec![
                vec![false, false, false, false],
                vec![true, true, true, true],
                vec![false, false, false, false],
                vec![false, false, false, false],
            ],
            TetrominoType::O => vec![vec![true, true], vec![true, true]],
            TetrominoType::T => vec![
                vec![false, true, false],
                vec![true, true, true],
                vec![false, false, false],
            ],
            TetrominoType::S => vec![
                vec![false, true, true],
                vec![true, true, false],
                vec![false, false, false],
            ],
            TetrominoType::Z => vec![
                vec![true, true, false],
                vec![false, true, true],
                vec![false, false, false],
            ],
            TetrominoType::J => vec![
                vec![true, false, false],
                vec![true, true, true],
                vec![false, false, false],
            ],
            TetrominoType::L => vec![
                vec![false, false, true],
                vec![true, true, true],
                vec![false, false, false],
            ],
        };
        let color = match tetromino_type {
            TetrominoType::I => Color::Cyan,
            TetrominoType::O => Color::Yellow,
            TetrominoType::T => Color::Purple,
            TetrominoType::S => Color::Green,
            TetrominoType::Z => Color::Red,
            TetrominoType::J => Color::Blue,
            TetrominoType::L => Color::Orange,
        };
        let r = Tetromino { tetromino_type, color, shape, x: 3, y: 0, rotation: 0 };
        proof {
            assert(r.shape.deep_view() =~~= spec_shape_of(tetromino_type));
        }
        r
    }

    /// The mask rotated a quarter turn, leaving the piece itself alone.
    pub fn get_rotated_shape(&self) -> (r: Vec<Vec<bool>>)
        requires
            self.wf(),
        ensures
            r.deep_view() == spec_rotated(self.shape.deep_view()),
    {
        let size = self.shape.len();
        let mut out: Vec<Vec<bool>> = Vec::new();
        let mut r: usize = 0;
        while r < size
            invariant
                size == self.shape@.len(),
                self.wf(),
                r <= size,
                out@.len() == r,
                forall|rr: int|
                    0 <= rr < r ==> (#[trigger] out@[rr])@ == spec_rotated(
                        self.shape.deep_view(),
                    )[rr],
            decreases size - r,
        {
            let mut row: Vec<bool> = Vec::new();
            let mut c: usize = 0;
            while c < size
                invariant
                    size == self.shape@.len(),
                    self.wf(),
                    r < size,
                    c <= size,
                    row@.len() == c,
                    forall|cc: int|
                        0 <= cc < c ==> row@[cc] == self.shape@[size - 1 - cc]@[r as int],
                decreases size - c,
            {
                proof {
                    assert(self.shape.deep_view()[size - 1 - c as int].len() == size);
                    lemma_bool_row_view(self.shape@[size - 1 - c as int]);
                }
                row.push(self.shape[size - 1 - c][r]);
                c = c + 1;
            }
            proof {
                assert(row@ =~= spec_rotated(self.shape.deep_view())[r as int]);
            }
            out.push(row);
            r = r + 1;
        }
        proof {
            assert(out.deep_view() =~~= spec_rotated(self.shape.deep_view()));
        }
        out
    }

    /// Rotates the piece a quarter turn in place and advances its rotation
    /// counter modulo four.
    pub fn rotate(&mut self)
        requires
            old(self).wf(),
        ensures
            final(self).shape.deep_view() == spec_rotated(old(self).shape.deep_view()),
            final(self).rotation == (old(self).rotation + 1) % 4,
            final(self).tetromino_type == old(self).tetromino_type,
            final(self).color == old(self).color,
            final(self).x == old(self).x,
            final(self).y == old(self).y,
            final(self).wf(),
    {
        let rotated = self.get_rotated_shape();
        self.shape = rotated;
        self.rotation = (self.rotation.wrapping_add(1)) % 4;
    }

    /// The bounding box of the set cells, as (least column, least row,
    /// greatest column, greatest row); a mask with no set cell yields the
    /// empty box (size, size, 0, 0).
    pub fn get_bounds(&self) -> (r: (usize, usize, usize, usize))
        ensures
            forall|row: int, col: int|
                0 <= row < self.shape.deep_view().len() && 0 <= col < self.shape.deep_view()[
                row].len() && self.shape.deep_view()[row][col] ==> r.0 <= col && col <= r.2 && r.1
                    <= row && row <= r.3,
    {
        let mut min_x = self.shape.len();
        let mut max_x: usize = 0;
        let mut min_y = self.shape.len();
        let mut max_y: usize = 0;
        let mut row: usize = 0;
        while row < self.shape.len()
            invariant
                row <= self.shape@.len(),
                forall|rr: int, cc: int|
                    0 <= rr < row && 0 <= cc < self.shape.deep_view()[rr].len()
                        && self.shape.deep_view()[rr][cc] ==> min_x <= cc && cc <= max_x && min_y
                        <= rr && rr <= max_y,
            decreases self.shape@.len() - row,
        {
            let cells = &self.shape[row];
            let mut col: usize = 0;
            while col < cells.len()
                invariant
                    row < self.shape@.len(),
                    cells@ == self.shape@[row as int]@,
                    col <= cells@.len(),
                    forall|rr: int, cc: int|
                        0 <= rr < row && 0 <= cc < self.shape.deep_view()[rr].len()
                            && self.shape.deep_view()[rr][cc] ==> min_x <= cc && cc <= max_x
                            && min_y <= rr && rr <= max_y,
                    forall|cc: int|
                        0 <= cc < col && self.shape.deep_view()[row as int][cc] ==> min_x <= cc
                            && cc <= max_x && min_y <= row && row <= max_y,
                decreases cells@.len() - col,
            {
                if cells[col] {
                    if col < min_x {
                        min_x = col;
                    }
                    if col > max_x {
                        max_x = col;
                    }
                    if row < min_y {
                        min_y = row;
                    }
                    if row > max_y {
                        max_y = row;
                    }
                }
                col = col + 1;
            }
            row = row + 1;
        }
        (min_x, min_y, max_x, max_y)
    }
}

/// Whether a row is completely filled with settled blocks.
pub open spec fn spec_full_row(row: Seq<Color>) -> bool {
    forall|c: int| 0 <= c < row.len() ==> row[c] != Color::Black
}

/// The rows of a grid that survive a clear, in order.
pub open spec fn spec_kept_rows(rows: Seq<Seq<Color>>) -> Seq<Seq<Color>>
    decreases rows.len(),
{
    if rows.len() == 0 {
        Seq::empty()
    } else if spec_full_row(rows[0]) {
        spec_kept_rows(rows.drop_first())
    } else {
        seq![rows[0]] + spec_kept_rows(rows.drop_first())
    }
}

/// Whether a piece, displaced by (dx, dy), sits entirely inside the board
/// on empty cells.
pub open spec fn spec_valid_position(
    grid: Seq<Seq<Color>>,
    width: int,
    height: int,
    shape: Seq<Seq<bool>>,
    x: int,
    y: int,
) -> bool {
    forall|row: int, col: int|
        0 <= row < shape.len() && 0 <= col < shape[row].len() && shape[row][col] ==> {
            &&& 0 <= x + col < width
            &&& 0 <= y + row < height
            &&& 0 <= y + row < grid.len()
            &&& 0 <= x + col < grid[y + row].len()
            &&& grid[y + row][x + col] == Color::Black
        }
}

/// The playfield: a grid of settled cells.
#[derive(Debug)]
pub struct GameBoard {
    pub width: usize,
    pub height: usize,
    pub grid: Vec<Vec<Color>>,
}

impl GameBoard {
    /// One row per unit of height, one cell per unit of width.
    pub open spec fn wf(&self) -> bool {
        &&& self.grid.deep_view().len() == self.height
        &&& forall|r: int|
            0 <= r < self.grid.deep_view().len() ==> (#[trigger] self.grid.deep_view()[r]).len()
                == self.width
    }

    /// An all-empty board.
    pub fn new(width: usize, height: usize) -> (r: GameBoard)
        ensures
            r.width == width,
            r.height == height,
            r.wf(),
            forall|row: int, col: int|
                0 <= row < height && 0 <= col < width ==> r.grid.deep_view()[row][col]
                    == Color::Black,
    {
        let empty_row: Vec<Color> = vec![Color::Black; width];
        let mut grid: Vec<Vec<Color>> = Vec::new();
        let mut i: usize = 0;
        while i < height
            invariant
                empty_row@.len() == width,
                forall|c: int| 0 <= c < width ==> empty_row@[c] == Color::Black,
                i <= height,
                grid@.len() == i,
                forall|r: int| 0 <= r < i ==> (#[trigger] grid@[r])@ == empty_row@,
            decreases height - i,
        {
            let row = empty_row.clone();
            proof {
                assert(row@ =~= empty_row@);
            }
            grid.push(row);
            i = i + 1;
        }
        GameBoard { width, height, grid }
    }

    /// Whether the piece, displaced by (dx, dy), would sit entirely inside
    /// the board on empty cells.
    pub fn is_valid_position(&self, piece: &Tetromino, dx: i32, dy: i32) -> (r: bool)
        requires
            piece.wf(),
            self.wf(),
            self.width <= i32::MAX,
            self.height <= i32::MAX,
        ensures
            r == spec_valid_position(
                self.grid.deep_view(),
                self.width as int,
                self.height as int,
                piece.shape.deep_view(),
                piece.x + dx,
                piece.y + dy,
            ),
    {
        let new_x: i64 = piece.x as i64 + dx as i64;
        let new_y: i64 = piece.y as i64 + dy as i64;
        let mut row: usize = 0;
        while row < piece.shape.len()
            invariant
                piece.wf(),
                self.wf(),
                self.width <= i32::MAX,
                self.height <= i32::MAX,
                new_x == piece.x + dx,
                new_y == piece.y + dy,
                row <= piece.shape@.len(),
                forall|rr: int, cc: int|
                    0 <= rr < row && 0 <= cc < piece.shape.deep_view()[rr].len()
                        && piece.shape.deep_view()[rr][cc] ==> {
                        &&& 0 <= new_x + cc < self.width
                        &&& 0 <= new_y + rr < self.height
                        &&& 0 <= new_y + rr < self.grid.deep_view().len()
                        &&& 0 <= new_x + cc < self.grid.deep_view()[new_y + rr].len()
                        &&& self.grid.deep_view()[new_y + rr][new_x + cc] == Color::Black
                    },
            decreases piece.shape@.len() - row,
        {
            let cells = &piece.shape[row];
            proof {
                lemma_bool_row_view(piece.shape@[row as int]);
                assert(piece.shape.deep_view()[row as int] == cells@);
            }
            let mut col: usize = 0;
            while col < cells.len()
                invariant
                    piece.wf(),
                    self.wf(),
                    self.width <= i32::MAX,
                    self.height <= i32::MAX,
                    new_x == piece.x + dx,
                    new_y == piece.y + dy,
                    row < piece.shape@.len(),
                    cells@ == piece.shape@[row as int]@,
                    piece.shape.deep_view()[row as int] == cells@,
                    col <= cells@.len(),
                    forall|rr: int, cc: int|
                        0 <= rr < row && 0 <= cc < piece.shape.deep_view()[rr].len()
                            && piece.shape.deep_view()[rr][cc] ==> {
                            &&& 0 <= new_x + cc < self.width
                            &&& 0 <= new_y + rr < self.height
                            &&& 0 <= new_y + rr < self.grid.deep_view().len()
                            &&& 0 <= new_x + cc < self.grid.deep_view()[new_y + rr].len()
                            &&& self.grid.deep_view()[new_y + rr][new_x + cc] == Color::Black
                        },
                    forall|cc: int|
                        0 <= cc < col && piece.shape.deep_view()[row as int][cc] ==> {
                            &&& 0 <= new_x + cc < self.width
                            &&& 0 <= new_y + row < self.height
                            &&& 0 <= new_y + row < self.grid.deep_view().len()
                            &&& 0 <= new_x + cc < self.grid.deep_view()[new_y + row].len()
                            &&& self.grid.deep_view()[new_y + row][new_x + cc] == Color::Black
                        },
                decreases cells@.len() - col,
            {
                if cells[col] {
                    proof {
                        assert(piece.shape.deep_view()[row as int][col as int]);
                        assert(piece.shape.deep_view()[row as int].len() <= 4);
                    }
                    let board_x = new_x + col as i64;
                    let board_y = new_y + row as i64;
                    proof {
                        assert(board_x as int == piece.x + dx + col);
                        assert(board_y as int == piece.y + dy + row);
                    }
                    if board_x < 0 || board_x >= self.width as i64 || board_y < 0 || board_y
                        >= self.height as i64 {
                        proof {
                            lemma_invalid_witness(
                                self.grid.deep_view(),
                                self.width as int,
                                self.height as int,
                                piece.shape.deep_view(),
                                piece.x + dx,
                                piece.y + dy,
                                row as int,
                                col as int,
                            );
                        }
                        return false;
                    }
                    if board_y >= self.grid.len() as i64 {
                        proof {
                            lemma_invalid_witness(
                                self.grid.deep_view(),
                                self.width as int,
                                self.height as int,
                                piece.shape.deep_view(),
                                piece.x + dx,
                                piece.y + dy,
                                row as int,
                                col as int,
                            );
                        }
                        return false;
                    }
                    let cells_row = &self.grid[board_y as usize];
                    proof {
                        lemma_color_row_view(self.grid@[board_y as int]);
                        assert(self.grid.deep_view()[board_y as int] == cells_row@);
                    }
                    if board_x >= cells_row.len() as i64 {
                        proof {
                            lemma_invalid_witness(
                                self.grid.deep_view(),
                                self.width as int,
                                self.height as int,
                                piece.shape.deep_view(),
                                piece.x + dx,
                                piece.y + dy,
                                row as int,
                                col as int,
                            );
                        }
                        return false;
                    }
                    if cells_row[board_x as usize] != Color::Black {
                        proof {
                            lemma_invalid_witness(
                                self.grid.deep_view(),
                                self.width as int,
                                self.height as int,
                                piece.shape.deep_view(),
                                piece.x + dx,
                                piece.y + dy,
                                row as int,
                                col as int,
                            );
                        }
                        return false;
                    }
                }
                col = col + 1;
            }
            row = row + 1;
        }
        true
    }

    /// Settles a piece: every set cell that lands inside the board takes
    /// the piece's colour; everything else is untouched.
    pub fn place_piece(&mut self, piece: &Tetromino)
        requires
            piece.wf(),
            old(self).wf(),
            old(self).width <= i32::MAX,
            old(self).height <= i32::MAX,
        ensures
            final(self).width == old(self).width,
            final(self).height == old(self).height,
            final(self).grid.deep_view().len() == old(self).grid.deep_view().len(),
            forall|r: int|
                0 <= r < final(self).grid.deep_view().len() ==> (#[trigger] final(self).grid.deep_view()[r]).len() == old(self).grid.deep_view()[r].len(),
            forall|r: int, c: int|
                #![trigger final(self).grid.deep_view()[r][c]]
                0 <= r < final(self).grid.deep_view().len() && 0 <= c < final(self).grid.deep_view()[r].len() && final(self).grid.deep_view()[r][c] != old(self).grid.deep_view()[r][c] ==> final(self).grid.deep_view()[r][c] == piece.color
                    && spec_piece_covers(piece.shape.deep_view(), piece.x as int, piece.y as int, r, c),
    {
        let mut row: usize = 0;
        while row < piece.shape.len()
            invariant
                piece.wf(),
                self.width <= i32::MAX,
                self.height <= i32::MAX,
                row <= piece.shape@.len(),
                self.width == old(self).width,
                self.height == old(self).height,
                self.grid.deep_view().len() == old(self).grid.deep_view().len(),
                forall|r: int|
                    0 <= r < self.grid.deep_view().len() ==> (#[trigger] self.grid.deep_view()[
                    r]).len() == old(self).grid.deep_view()[r].len(),
                forall|r: int, c: int|
                    #![trigger self.grid.deep_view()[r][c]]
                    0 <= r < self.grid.deep_view().len() && 0 <= c < self.grid.deep_view()[r].len()
                        && self.grid.deep_view()[r][c] != old(self).grid.deep_view()[r][c]
                        ==> self.grid.deep_view()[r][c] == piece.color && spec_piece_covers(
                        piece.shape.deep_view(),
                        piece.x as int,
                        piece.y as int,
                        r,
                        c,
                    ),
            decreases piece.shape@.len() - row,
        {
            let cells = &piece.shape[row];
            proof {
                lemma_bool_row_view(piece.shape@[row as int]);
                assert(piece.shape.deep_view()[row as int] == cells@);
            }
            let mut col: usize = 0;
            while col < cells.len()
                invariant
                    piece.wf(),
                    self.width <= i32::MAX,
                    self.height <= i32::MAX,
                    row < piece.shape@.len(),
                    cells@ == piece.shape@[row as int]@,
                    piece.shape.deep_view()[row as int] == cells@,
                    col <= cells@.len(),
                    self.width == old(self).width,
                    self.height == old(self).height,
                    self.grid.deep_view().len() == old(self).grid.deep_view().len(),
                    forall|r: int|
                        0 <= r < self.grid.deep_view().len() ==> (#[trigger] self.grid.deep_view()[
                        r]).len() == old(self).grid.deep_view()[r].len(),
                    forall|r: int, c: int|
                        #![trigger self.grid.deep_view()[r][c]]
                        0 <= r < self.grid.deep_view().len() && 0 <= c < self.grid.deep_view()[
                        r].len() && self.grid.deep_view()[r][c] != old(self).grid.deep_view()[r][c]
                            ==> self.grid.deep_view()[r][c] == piece.color && spec_piece_covers(
                            piece.shape.deep_view(),
                            piece.x as int,
                            piece.y as int,
                            r,
                            c,
                        ),
                decreases cells@.len() - col,
            {
                if cells[col] {
                    let board_x = piece.x as i64 + col as i64;
                    let board_y = piece.y as i64 + row as i64;
                    if board_x >= 0 && board_y >= 0 && (board_x as usize) < self.width && (
                    board_y as usize) < self.height {
                        let bx = board_x as usize;
                        let by = board_y as usize;
                        proof {
                            assert(piece.shape.deep_view()[row as int].len() <= 4);
                            assert(board_x <= i32::MAX + 4 && board_y <= i32::MAX + 4);
                            assert(bx as int == board_x as int);
                            assert(by as int == board_y as int);
                            assert(piece.x + col == bx as int);
                            assert(piece.y + row == by as int);
                        }
                        if by < self.grid.len() {
                            let rlen = self.grid[by].len();
                            if bx < rlen {
                                let ghost before = self.grid.deep_view();
                                self.grid[by][bx] = piece.color;
                                proof {
                                    lemma_color_row_view(self.grid@[by as int]);
                                    assert(self.grid.deep_view()[by as int][bx as int]
                                        == piece.color);
                                    assert(piece.shape.deep_view()[row as int][col as int]);
                                    assert(spec_piece_covers(
                                        piece.shape.deep_view(),
                                        piece.x as int,
                                        piece.y as int,
                                        by as int,
                                        bx as int,
                                    ));
                                    assert forall|r2: int, c2: int|
                                        0 <= r2 < self.grid.deep_view().len() && 0 <= c2
                                            < self.grid.deep_view()[r2].len() && !(r2 == by && c2
                                            == bx) implies self.grid.deep_view()[r2][c2]
                                        == before[r2][c2] by {
                                        lemma_color_row_view(self.grid@[r2]);
                                    }
                                    assert forall|r2: int|
                                        0 <= r2 < self.grid.deep_view().len() implies (
                                    #[trigger] self.grid.deep_view()[r2]).len()
                                        == before[r2].len() by {
                                        lemma_color_row_view(self.grid@[r2]);
                                    }
                                    assert forall|r2: int, c2: int|
                                        #![trigger self.grid.deep_view()[r2][c2]]
                                        0 <= r2 < self.grid.deep_view().len() && 0 <= c2
                                            < self.grid.deep_view()[r2].len()
                                            && self.grid.deep_view()[r2][c2] != old(
                                            self,
                                        ).grid.deep_view()[r2][c2] implies self.grid.deep_view()[
                                        r2][c2] == piece.color && spec_piece_covers(
                                            piece.shape.deep_view(),
                                            piece.x as int,
                                            piece.y as int,
                                            r2,
                                            c2,
                                        ) by {
                                        if !(r2 == by && c2 == bx) {
                                            assert(self.grid.deep_view()[r2][c2]
                                                == before[r2][c2]);
                                            assert(0 <= r2 < before.len());
                                            assert(before[r2].len() == self.grid.deep_view()[
                                            r2].len());
                                            assert(before[r2][c2] != old(self).grid.deep_view()[
                                            r2][c2]);
                                            assert(before[r2][c2] == piece.color
                                                && spec_piece_covers(
                                                piece.shape.deep_view(),
                                                piece.x as int,
                                                piece.y as int,
                                                r2,
                                                c2,
                                            ));
                                        }
                                    }
                                }
                            }
                        }
                    }
                }
                col = col + 1;
            }
            row = row + 1;
        }
    }

    /// Removes every full row, drops the rest, and refills the top with
    /// empty rows; returns how many rows were cleared.
    pub fn clear_lines(&mut self) -> (r: u32)
        requires
            old(self).grid.deep_view().len() == old(self).height,
            old(self).height <= u32::MAX,
        ensures
            final(self).width == old(self).width,
            final(self).height == old(self).height,
            r == old(self).grid.deep_view().len() - spec_kept_rows(
                old(self).grid.deep_view(),
            ).len(),
            final(self).grid.deep_view() == Seq::new(
                (old(self).height - spec_kept_rows(old(self).grid.deep_view()).len()) as nat,
                |i: int| Seq::new(old(self).width as nat, |j: int| Color::Black),
            ) + spec_kept_rows(old(self).grid.deep_view()),
    {
        let ghost whole = spec_kept_rows(self.grid.deep_view());
        proof {
            lemma_kept_rows_len(self.grid.deep_view());
        }
        let mut kept: Vec<Vec<Color>> = Vec::new();
        let mut i: usize = 0;
        proof {
            assert(self.grid.deep_view().subrange(0, self.grid.deep_view().len() as int)
                =~~= self.grid.deep_view());
        }
        while i < self.grid.len()
            invariant
                i <= self.grid@.len(),
                self.grid@.len() == old(self).grid@.len(),
                self.grid.deep_view() == old(self).grid.deep_view(),
                self.width == old(self).width,
                self.height == old(self).height,
                kept@.len() <= i,
                whole =~~= kept.deep_view() + spec_kept_rows(
                    self.grid.deep_view().subrange(i as int, self.grid.deep_view().len() as int),
                ),
            decreases self.grid@.len() - i,
        {
            let full = row_is_full(&self.grid[i]);
            proof {
                let rows = self.grid.deep_view().subrange(i as int, self.grid.deep_view().len() as int);
                assert(rows[0] == self.grid.deep_view()[i as int]);
                assert(rows.drop_first() =~~= self.grid.deep_view().subrange(
                    i + 1,
                    self.grid.deep_view().len() as int,
                ));
            }
            if !full {
                let row = self.grid[i].clone();
                proof {
                    assert(row@ =~= self.grid@[i as int]@);
                }
                let ghost before = kept.deep_view();
                kept.push(row);
                proof {
                    assert(kept.deep_view() =~~= before.push(self.grid.deep_view()[i as int]));
                }
            }
            i = i + 1;
        }
        proof {
            assert(self.grid.deep_view().subrange(
                self.grid.deep_view().len() as int,
                self.grid.deep_view().len() as int,
            ) =~~= Seq::<Seq<Color>>::empty());
            assert(kept.deep_view() =~~= whole);
        }
        let cleared = (self.grid.len() - kept.len()) as u32;
        let empty_row: Vec<Color> = vec![Color::Black; self.width];
        let mut fresh: Vec<Vec<Color>> = Vec::new();
        let missing = self.height - kept.len();
        let mut j: usize = 0;
        while j < missing
            invariant
                empty_row@.len() == self.width,
                forall|c: int| 0 <= c < self.width ==> empty_row@[c] == Color::Black,
                j <= missing,
                fresh@.len() == j,
                self.width == old(self).width,
                forall|k: int|
                    0 <= k < j ==> (#[trigger] fresh.deep_view()[k]) =~= Seq::new(
                        self.width as nat,
                        |c: int| Color::Black,
                    ),
            decreases missing - j,
        {
            let row = empty_row.clone();
            proof {
                assert(row@ =~= empty_row@);
            }
            let ghost fb = fresh.deep_view();
            fresh.push(row);
            proof {
                lemma_color_row_view(fresh@[j as int]);
                assert(fresh.deep_view()[j as int] =~= Seq::new(
                    self.width as nat,
                    |c: int| Color::Black,
                ));
                assert(forall|k: int| 0 <= k < j ==> (#[trigger] fresh.deep_view()[k]) == fb[k]);
            }
            j = j + 1;
        }
        let mut k: usize = 0;
        let ghost fresh_rows = fresh.deep_view();
        while k < kept.len()
            invariant
                k <= kept@.len(),
                kept.deep_view() =~~= whole,
                fresh.deep_view() =~~= fresh_rows + whole.subrange(0, k as int),
            decreases kept@.len() - k,
        {
            let row = kept[k].clone();
            proof {
                assert(row@ =~= kept@[k as int]@);
                assert(whole.subrange(0, k + 1) =~~= whole.subrange(0, k as int).push(whole[k as int]));
            }
            let ghost fb = fresh.deep_view();
            fresh.push(row);
            proof {
                lemma_color_row_view(fresh@[fresh@.len() - 1]);
                lemma_color_row_view(kept@[k as int]);
                assert(fresh.deep_view() =~~= fb.push(whole[k as int]));
            }
            k = k + 1;
        }
        proof {
            assert(whole.subrange(0, whole.len() as int) =~~= whole);
        }
        self.grid = fresh;
        proof {
            assert(self.grid.deep_view() =~~= Seq::new(
                (old(self).height - spec_kept_rows(old(self).grid.deep_view()).len()) as nat,
                |i: int| Seq::new(old(self).width as nat, |j: int| Color::Black),
            ) + spec_kept_rows(old(self).grid.deep_view()));
        }
        cleared
    }

    /// Whether any settled block has reached the top row.
    pub fn is_game_over(&self) -> (r: bool)
        requires
            self.grid.deep_view().len() > 0,
        ensures
            r == exists|c: int|
                0 <= c < self.grid.deep_view()[0].len() && self.grid.deep_view()[0][c]
                    != Color::Black,
    {
        let top = &self.grid[0];
        proof {
            lemma_color_row_view(self.grid@[0]);
            assert(self.grid.deep_view()[0] == top@);
        }
        let mut c: usize = 0;
        while c < top.len()
            invariant
                top@ == self.grid@[0]@,
                self.grid.deep_view()[0] == top@,
                c <= top@.len(),
                forall|cc: int| 0 <= cc < c ==> self.grid.deep_view()[0][cc] == Color::Black,
            decreases top@.len() - c,
        {
            if top[c] != Color::Black {
                proof {
                    assert(self.grid.deep_view()[0][c as int] != Color::Black);
                }
                return true;
            }
            c = c + 1;
        }
        false
    }
}

/// Whether the piece's mask sets the cell that lands on board position
/// (row, col).
pub open spec fn spec_piece_covers(
    shape: Seq<Seq<bool>>,
    x: int,
    y: int,
    row: int,
    col: int,
) -> bool {
    exists|pr: int, pc: int|
        0 <= pr < shape.len() && 0 <= pc < shape[pr].len() && shape[pr][pc] && y + pr == row && x
            + pc == col
}

/// Every row a clear keeps has the width the grid's rows had.
proof fn lemma_kept_rows_width(rows: Seq<Seq<Color>>, w: int)
    requires
        forall|r: int| 0 <= r < rows.len() ==> (#[trigger] rows[r]).len() == w,
    ensures
        forall|i: int|
            0 <= i < spec_kept_rows(rows).len() ==> (#[trigger] spec_kept_rows(rows)[i]).len()
                == w,
    decreases rows.len(),
{
    if rows.len() > 0 {
        assert forall|r: int|
            0 <= r < rows.drop_first().len() implies (#[trigger] rows.drop_first()[r]).len()
            == w by {
            assert(rows.drop_first()[r] == rows[r + 1]);
        }
        lemma_kept_rows_width(rows.drop_first(), w);
        let kept = spec_kept_rows(rows);
        let rest = spec_kept_rows(rows.drop_first());
        assert forall|i: int| 0 <= i < kept.len() implies (#[trigger] kept[i]).len() == w by {
            if spec_full_row(rows[0]) {
                assert(kept[i] == rest[i]);
            } else {
                if i == 0 {
                    assert(kept[0] == rows[0]);
                    assert(rows[0].len() == w);
                } else {
                    assert(kept[i] == rest[i - 1]);
                }
            }
        }
    }
}

/// The kept rows are never more numerous than the grid's rows.
proof fn lemma_kept_rows_len(rows: Seq<Seq<Color>>)
    ensures
        spec_kept_rows(rows).len() <= rows.len(),
    decreases rows.len(),
{
    if rows.len() > 0 {
        lemma_kept_rows_len(rows.drop_first());
    }
}

/// One frame of player input.
#[derive(Debug, Clone, Copy, PartialEq, Eq, Structural)]
pub struct InputState {
    pub left: bool,
    pub right: bool,
    pub down: bool,
    pub rotate: bool,
    pub hard_drop: bool,
    pub pause: bool,
}

/// Scoring and timing counters; times are milliseconds handed in by the
/// host.
#[derive(Debug, Clone, Copy, PartialEq, Eq, Structural)]
pub struct GameStats {
    pub score: u32,
    pub lines_cleared: u32,
    pub level: u32,
    pub tetris_count: u32,
    pub total_pieces: u32,
    pub start_time_ms: u64,
    pub play_time_ms: u64,
}

/// The whole game: board, pieces in flight, the piece bag, state and
/// statistics.
#[derive(Debug)]
pub struct TetrisGame {
    pub board: GameBoard,
    pub current_piece: Option<Tetromino>,
    pub next_piece: Option<Tetromino>,
    pub state: GameState,
    pub stats: GameStats,
    pub drop_timer_ms: u64,
    pub drop_interval_ms: u64,
    pub piece_bag: Vec<TetrominoType>,
    pub ghost_piece: Option<Tetromino>,
}

/// The fixed draw order of one bag refill: each of the seven kinds once,
/// interleaved.
pub open spec fn spec_bag_order() -> Seq<TetrominoType> {
    seq![
        TetrominoType::T,
        TetrominoType::O,
        TetrominoType::L,
        TetrominoType::I,
        TetrominoType::Z,
        TetrominoType::J,
        TetrominoType::S,
    ]
}

impl TetrisGame {
    /// The board is the standard 10 by 20 field and every piece in flight
    /// has a square mask.
    pub open spec fn wf(&self) -> bool {
        &&& self.board.wf()
        &&& self.board.width == 10
        &&& self.board.height == 20
        &&& self.current_piece is Some ==> self.current_piece->0.wf()
        &&& self.ghost_piece is Some ==> self.ghost_piece->0.wf()
    }

    /// A fresh game at tick zero: empty 10x20 board, a filled bag minus
    /// the piece already in play, level one, a one-second drop interval.
    pub fn new() -> (r: TetrisGame)
        ensures
            r.wf(),
            r.stats == (GameStats {
                score: 0,
                lines_cleared: 0,
                level: 1,
                tetris_count: 0,
                total_pieces: 0,
                start_time_ms: 0,
                play_time_ms: 0,
            }),
            r.drop_interval_ms == 1000,
            r.state == GameState::Playing || r.state == GameState::GameOver,
            r.state == GameState::Playing ==> r.current_piece is Some,
    {
        let mut game = TetrisGame {
            board: GameBoard::new(10, 20),
            current_piece: None,
            next_piece: None,
            state: GameState::Menu,
            stats: GameStats {
                score: 0,
                lines_cleared: 0,
                level: 1,
                tetris_count: 0,
                total_pieces: 0,
                start_time_ms: 0,
                play_time_ms: 0,
            },
            drop_timer_ms: 0,
            drop_interval_ms: 1000,
            piece_bag: Vec::new(),
            ghost_piece: None,
        };
        game.fill_piece_bag();
        game.spawn_next_piece();
        if game.state != GameState::GameOver {
            game.state = GameState::Playing;
        }
        game
    }

    /// Refills the bag with each of the seven kinds once, in the fixed
    /// interleaved order.
    fn fill_piece_bag(&mut self)
        ensures
            final(self).piece_bag@ == old(self).piece_bag@ + spec_bag_order(),
            *final(self) == (TetrisGame { piece_bag: final(self).piece_bag, ..*old(self) }),
    {
        self.piece_bag.push(TetrominoType::T);
        self.piece_bag.push(TetrominoType::O);
        self.piece_bag.push(TetrominoType::L);
        self.piece_bag.push(TetrominoType::I);
        self.piece_bag.push(TetrominoType::Z);
        self.piece_bag.push(TetrominoType::J);
        self.piece_bag.push(TetrominoType::S);
        proof {
            assert(self.piece_bag@ =~= old(self).piece_bag@ + spec_bag_order());
        }
    }

    /// Draws the next piece from the bag, refilling an empty bag first; a
    /// piece that cannot sit at the spawn position ends the game before it
    /// enters play.
    fn spawn_next_piece(&mut self)
        requires
            old(self).wf(),
        ensures
            final(self).wf(),
            final(self).state == GameState::GameOver || final(self).current_piece is Some,
            final(self).board.width == old(self).board.width,
            final(self).board.height == old(self).board.height,
            final(self).board.grid.deep_view() == old(self).board.grid.deep_view(),
            final(self).stats == old(self).stats,
            *final(self) == (TetrisGame {
                current_piece: final(self).current_piece,
                ghost_piece: final(self).ghost_piece,
                state: final(self).state,
                piece_bag: final(self).piece_bag,
                ..*old(self)
            }),
    {
        if self.piece_bag.len() == 0 {
            self.fill_piece_bag();
        }
        let piece_type = self.piece_bag.remove(0);
        let piece = Tetromino::new(piece_type);
        if !self.board.is_valid_position(&piece, 0, 0) {
            self.state = GameState::GameOver;
            return ;
        }
        self.current_piece = Some(piece);
        self.update_ghost_piece();
    }

    /// Recomputes the ghost piece: a copy of the current piece dropped as
    /// far as it can validly fall.
    fn update_ghost_piece(&mut self)
        requires
            old(self).wf(),
        ensures
            final(self).wf(),
            *final(self) == (TetrisGame { ghost_piece: final(self).ghost_piece, ..*old(self) }),
    {
        if self.current_piece.is_some() {
            let piece = match &self.current_piece {
                Some(p) => p.clone(),
                None => {
                    return ;
                },
            };
            let mut ghost = piece;
            let mut fuel: u32 = 0;
            while fuel < 64 && ghost.y < i32::MAX && self.board.is_valid_position(&ghost, 0, 1)
                invariant
                    self.wf(),
                    ghost.wf(),
                    fuel <= 64,
                    *self == (TetrisGame { ghost_piece: self.ghost_piece, ..*old(self) }),
                decreases 64 - fuel,
            {
                ghost.y = ghost.y + 1;
                fuel = fuel + 1;
            }
            self.ghost_piece = Some(ghost);
        }
    }

    /// Moves the current piece by (dx, dy) when the target position is
    /// valid; reports whether it moved.
    pub fn move_piece(&mut self, dx: i32, dy: i32) -> (r: bool)
        requires
            old(self).wf(),
        ensures
            final(self).wf(),
            old(self).current_piece is None ==> r == false,
            r ==> old(self).current_piece is Some && final(self).current_piece is Some && ({
                let before = old(self).current_piece->0;
                let moved = final(self).current_piece->0;
                &&& moved.x == before.x + dx
                &&& moved.y == before.y + dy
                &&& moved.shape.deep_view() == before.shape.deep_view()
                &&& moved.tetromino_type == before.tetromino_type
                &&& spec_valid_position(
                    final(self).board.grid.deep_view(),
                    final(self).board.width as int,
                    final(self).board.height as int,
                    moved.shape.deep_view(),
                    moved.x as int,
                    moved.y as int,
                )
            }),
            !r ==> final(self).current_piece is Some == (old(self).current_piece is Some),
            final(self).board.grid.deep_view() == old(self).board.grid.deep_view(),
            final(self).state == old(self).state,
            final(self).stats == old(self).stats,
    {
        if self.current_piece.is_none() {
            return false;
        }
        let piece = match &self.current_piece {
            Some(p) => p.clone(),
            None => {
                return false;
            },
        };
        if self.board.is_valid_position(&piece, dx, dy) {
            let nx = piece.x as i64 + dx as i64;
            let ny = piece.y as i64 + dy as i64;
            if nx >= i32::MIN as i64 && nx <= i32::MAX as i64 && ny >= i32::MIN as i64 && ny
                <= i32::MAX as i64 {
                let mut moved = piece;
                moved.x = nx as i32;
                moved.y = ny as i32;
                self.current_piece = Some(moved);
                self.update_ghost_piece();
                return true;
            }
        }
        false
    }

    /// Rotates the current piece a quarter turn, trying small wall-kick
    /// displacements when the plain rotation does not fit; reports whether
    /// the rotation took.
    pub fn rotate_piece(&mut self) -> (r: bool)
        requires
            old(self).wf(),
        ensures
            final(self).wf(),
            old(self).current_piece is None ==> r == false,
            final(self).board.grid.deep_view() == old(self).board.grid.deep_view(),
            final(self).state == old(self).state,
            final(self).stats == old(self).stats,
    {
        if self.current_piece.is_none() {
            return false;
        }
        let piece = match &self.current_piece {
            Some(p) => p.clone(),
            None => {
                return false;
            },
        };
        let mut rotated = piece.clone();
        rotated.rotate();
        if self.board.is_valid_position(&rotated, 0, 0) {
            self.current_piece = Some(rotated);
            self.update_ghost_piece();
            return true;
        }
        let kicks: Vec<(i32, i32)> = vec![(-1, 0), (1, 0), (0, -1), (-1, -1), (1, -1)];
        let mut k: usize = 0;
        while k < kicks.len()
            invariant
                old(self).current_piece is Some,
                self.wf(),
                rotated.wf(),
                kicks@.len() == 5,
                k <= kicks@.len(),
                forall|i: int|
                    0 <= i < kicks@.len() ==> -1 <= (#[trigger] kicks@[i]).0 <= 1 && -1
                        <= kicks@[i].1 <= 1,
                *self == (TetrisGame {
                    current_piece: self.current_piece,
                    ghost_piece: self.ghost_piece,
                    ..*old(self)
                }),
                self.current_piece is Some ==> self.current_piece->0.wf(),
                self.board.grid.deep_view() == old(self).board.grid.deep_view(),
            decreases kicks@.len() - k,
        {
            let (kx, ky) = kicks[k];
            if self.board.is_valid_position(&rotated, kx, ky) {
                let nx = rotated.x as i64 + kx as i64;
                let ny = rotated.y as i64 + ky as i64;
                if nx >= i32::MIN as i64 && nx <= i32::MAX as i64 && ny >= i32::MIN as i64 && ny
                    <= i32::MAX as i64 {
                    let mut moved = rotated;
                    moved.x = nx as i32;
                    moved.y = ny as i32;
                    self.current_piece = Some(moved);
                    self.update_ghost_piece();
                    return true;
                }
                return false;
            }
            k = k + 1;
        }
        false
    }

    /// Drops the current piece straight to the lowest valid row and
    /// settles it there.
    pub fn hard_drop(&mut self)
        requires
            old(self).wf(),
        ensures
            final(self).wf(),
    {
        if self.current_piece.is_none() {
            return ;
        }
        let piece = match &self.current_piece {
            Some(p) => p.clone(),
            None => {
                return ;
            },
        };
        let mut dropped = piece;
        let mut fuel: u32 = 0;
        while fuel < 64 && dropped.y < i32::MAX && self.board.is_valid_position(&dropped, 0, 1)
            invariant
                self.wf(),
                dropped.wf(),
                fuel <= 64,
            decreases 64 - fuel,
        {
            dropped.y = dropped.y + 1;
            fuel = fuel + 1;
        }
        self.current_piece = Some(dropped);
        self.place_current_piece();
    }

    /// Settles the current piece, books the cleared lines and the score,
    /// recomputes the level and drop interval, and either ends the game or
    /// spawns the next piece.
    fn place_current_piece(&mut self)
        requires
            old(self).wf(),
        ensures
            final(self).wf(),
    {
        let piece = match &self.current_piece {
            Some(p) => p.clone(),
            None => {
                return ;
            },
        };
        self.current_piece = None;
        self.board.place_piece(&piece);
        let ghost placed_grid = self.board.grid.deep_view();
        self.stats.total_pieces = if self.stats.total_pieces == u32::MAX {
            u32::MAX
        } else {
            self.stats.total_pieces + 1
        };
        proof {
            assert(forall|r: int|
                0 <= r < placed_grid.len() ==> (#[trigger] placed_grid[r]).len()
                    == self.board.width);
        }
        let lines_cleared = self.board.clear_lines();
        proof {
            lemma_kept_rows_width(placed_grid, self.board.width as int);
            assert(self.board.wf());
        }
        if lines_cleared > 0 {
            self.stats.lines_cleared = if self.stats.lines_cleared > u32::MAX - lines_cleared {
                u32::MAX
            } else {
                self.stats.lines_cleared + lines_cleared
            };
            let base_score: u32 = if lines_cleared == 1 {
                100
            } else if lines_cleared == 2 {
                300
            } else if lines_cleared == 3 {
                500
            } else if lines_cleared == 4 {
                800
            } else {
                0
            };
            proof {
                let b = base_score as int;
                let l = self.stats.level as int;
                assert(b * l <= 800 * 0xFFFFFFFF) by (nonlinear_arith)
                    requires
                        0 <= b <= 800,
                        0 <= l <= 0xFFFFFFFF,
                ;
            }
            let gained: u64 = base_score as u64 * self.stats.level as u64;
            self.stats.score = if gained > (u32::MAX - self.stats.score) as u64 {
                u32::MAX
            } else {
                self.stats.score + gained as u32
            };
            if lines_cleared == 4 {
                self.stats.tetris_count = if self.stats.tetris_count == u32::MAX {
                    u32::MAX
                } else {
                    self.stats.tetris_count + 1
                };
            }
            self.stats.level = (self.stats.lines_cleared / 10) + 1;
            let divisor: u64 = 10 + self.stats.level as u64;
            let interval: u64 = 10000 / divisor;
            self.drop_interval_ms = if interval < 50 {
                50
            } else {
                interval
            };
        }
        if self.board.is_game_over() {
            self.state = GameState::GameOver;
        } else {
            self.spawn_next_piece();
        }
    }

    /// Advances the game by the host's clock: once the drop interval has
    /// passed, the piece falls one row or settles, and the play time is
    /// brought up to date. A game that is not in play stands still.
    pub fn update(&mut self, now_ms: u64)
        requires
            old(self).wf(),
        ensures
            final(self).wf(),
            old(self).state != GameState::Playing ==> *final(self) == *old(self),
    {
        if self.state != GameState::Playing {
            return ;
        }
        let elapsed = if now_ms >= self.drop_timer_ms {
            now_ms - self.drop_timer_ms
        } else {
            0
        };
        if elapsed >= self.drop_interval_ms {
            if !self.move_piece(0, 1) {
                self.place_current_piece();
            }
            self.drop_timer_ms = now_ms;
        }
        self.stats.play_time_ms = if now_ms >= self.stats.start_time_ms {
            now_ms - self.stats.start_time_ms
        } else {
            0
        };
    }

    /// Flips between playing and paused; any other state stands still.
    pub fn toggle_pause(&mut self)
        ensures
            old(self).state == GameState::Playing ==> *final(self) == (TetrisGame {
                state: GameState::Paused,
                ..*old(self)
            }),
            old(self).state == GameState::Paused ==> *final(self) == (TetrisGame {
                state: GameState::Playing,
                ..*old(self)
            }),
            old(self).state != GameState::Playing && old(self).state != GameState::Paused
                ==> *final(self) == *old(self),
    {
        match self.state {
            GameState::Playing => {
                self.state = GameState::Paused;
            },
            GameState::Paused => {
                self.state = GameState::Playing;
            },
            _ => {},
        }
    }

    /// Back to a fresh game at tick zero.
    pub fn reset(&mut self)
        ensures
            final(self).wf(),
            final(self).stats.score == 0,
            final(self).stats.lines_cleared == 0,
            final(self).stats.level == 1,
            final(self).drop_interval_ms == 1000,
    {
        let fresh = TetrisGame::new();
        *self = fresh;
    }

    /// The statistics so far.
    pub fn get_stats(&self) -> (r: &GameStats)
        ensures
            r == self.stats,
    {
        &self.stats
    }

    /// The board.
    pub fn get_board(&self) -> (r: &GameBoard)
        ensures
            r.width == self.board.width,
            r.height == self.board.height,
            r.grid.deep_view() == self.board.grid.deep_view(),
    {
        &self.board
    }

    /// The piece in play, if any.
    pub fn get_current_piece(&self) -> (r: &Option<Tetromino>)
        ensures
            r == self.current_piece,
    {
        &self.current_piece
    }

    /// The ghost preview piece, if any.
    pub fn get_ghost_piece(&self) -> (r: &Option<Tetromino>)
        ensures
            r == self.ghost_piece,
    {
        &self.ghost_piece
    }

    /// The control state.
    pub fn get_state(&self) -> (r: &GameState)
        ensures
            r == self.state,
    {
        &self.state
    }
}

impl Default for TetrisGame {
    fn default() -> (r: TetrisGame)
        ensures
            r.wf(),
    {
        TetrisGame::new()
    }
}

/// Whether every cell of a row is filled.
fn row_is_full(row: &Vec<Color>) -> (r: bool)
    ensures
        r == spec_full_row(row.deep_view()),
{
    proof {
        lemma_color_row_view(*row);
    }
    let mut c: usize = 0;
    while c < row.len()
        invariant
            c <= row@.len(),
            forall|cc: int| 0 <= cc < c ==> row@[cc] != Color::Black,
        decreases row@.len() - c,
    {
        if row[c] == Color::Black {
            proof {
                assert(row.deep_view()[c as int] == Color::Black);
            }
            return false;
        }
        c = c + 1;
    }
    true
}

} // verus!
