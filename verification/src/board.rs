//! The chessboard and the pieces that stand on it.

use vstd::prelude::*;
use crate::rules::{
    back_rank_kind, full_grid, magnitude, move_allowed, on_board, on_line, path_clear, reach,
    standard_grid, step_square, toward, BoardView, BOARD_SIZE,
};

verus! {

/// The grid of a board, as rows of squares.
pub type BoardLayout = Vec<Vec<Square>>;

/// The moves played on a board, oldest first.
pub type MoveList = Vec<Move>;

/// A position on the chessboard: a column `x` and a row `y`.
///
/// A position is not validated when it is built; the functions that take one
/// check it against the board.
#[derive(Clone, Copy, Debug, PartialEq, Eq, Structural)]
pub struct Position {
    /// The x-coordinate (column).
    pub x: usize,
    /// The y-coordinate (row).
    pub y: usize,
}

/// A requested piece movement, from one position to another.
#[derive(Clone, Copy, Debug, PartialEq, Eq, Structural)]
pub struct Move {
    /// The position the piece leaves.
    pub old_pos: Position,
    /// The position the piece goes to.
    pub new_pos: Position,
}

/// The two colours of a piece.
#[derive(Clone, Copy, Debug, PartialEq, Eq, Structural)]
pub enum PieceColour {
    /// The colour black.
    Black,
    /// The colour white.
    White,
}

/// The six kinds of a piece.
#[derive(Clone, Copy, Debug, PartialEq, Eq, Structural)]
pub enum PieceKind {
    /// A Bishop.
    Bishop,
    /// A King.
    King,
    /// A Knight.
    Knight,
    /// A Pawn.
    Pawn,
    /// A Queen.
    Queen,
    /// A Rook.
    Rook,
}

/// Why a requested move was refused.
#[derive(Clone, Copy, Debug, PartialEq, Eq, Structural)]
pub enum ErrorKind {
    /// The origin or the destination lies outside the board.
    OutOfBounds,
    /// There is no piece at the origin.
    EmptyOrigin,
    /// The piece at the origin belongs to the player who is not to move.
    WrongPlayer,
    /// The destination holds a piece of the mover's own colour.
    SelfCapture,
    /// The piece cannot move that way, or something stands in its path.
    IllegalGeometry,
}

/// The state of one square of the board.
#[derive(Clone, Copy, Debug, PartialEq, Eq, Structural)]
pub enum Square {
    /// An empty square.
    Empty,
    /// A square with a piece on it.
    Piece {
        /// The colour of the piece.
        piece_colour: PieceColour,
        /// The kind of the piece.
        piece_kind: PieceKind,
    },
}

impl PieceColour {
    /// The other colour.
    pub open spec fn opponent(self) -> PieceColour {
        match self {
            PieceColour::White => PieceColour::Black,
            PieceColour::Black => PieceColour::White,
        }
    }
}

impl PieceKind {
    /// The conventional material value of a piece of this kind.
    pub open spec fn spec_value(self) -> u8 {
        match self {
            PieceKind::Bishop => 3,
            PieceKind::King => 0,
            PieceKind::Knight => 3,
            PieceKind::Pawn => 1,
            PieceKind::Queen => 9,
            PieceKind::Rook => 5,
        }
    }

    /// Checks if a move is valid or not for a piece of this kind and of the
    /// given colour: whether the piece can move that way and nothing stands
    /// in its path.
    ///
    /// Returns true if the move is valid, or false if it is invalid.
    pub fn is_move_valid(&self, pos: &Move, colour: &PieceColour, board: &Board) -> (valid: bool)
        requires
            board.wf(),
            on_board(pos.old_pos),
            on_board(pos.new_pos),
        ensures
            valid == move_allowed(*self, *colour, board@.layout, *pos),
    {
        let x_diff = gap(pos.old_pos.x, pos.new_pos.x);
        let y_diff = gap(pos.old_pos.y, pos.new_pos.y);
        match self {
            PieceKind::King => (x_diff == 1 && y_diff <= 1) || (y_diff == 1 && x_diff == 0),
            PieceKind::Knight => (x_diff == 2 && y_diff == 1) || (x_diff == 1 && y_diff == 2),
            PieceKind::Pawn => {
                let (one_ahead, two_ahead) = match colour {
                    PieceColour::Black => (
                        pos.new_pos.y == pos.old_pos.y + 1,
                        pos.new_pos.y == pos.old_pos.y + 2,
                    ),
                    PieceColour::White => (
                        pos.old_pos.y == pos.new_pos.y + 1,
                        pos.old_pos.y == pos.new_pos.y + 2,
                    ),
                };
                assert(board@.layout[pos.new_pos.y as int] == board.layout@[pos.new_pos.y as int]@);
                let target_empty = board.layout[pos.new_pos.y][pos.new_pos.x].kind().is_none();
                (one_ahead && x_diff == 1 && !target_empty)
                    || (one_ahead && x_diff == 0 && target_empty)
                    || (two_ahead && x_diff == 0 && target_empty && is_path_empty(pos, board))
            },
            PieceKind::Queen => {
                (x_diff == y_diff || (x_diff == 0) != (y_diff == 0)) && is_path_empty(pos, board)
            },
            PieceKind::Bishop => x_diff == y_diff && is_path_empty(pos, board),
            PieceKind::Rook => (x_diff == 0) != (y_diff == 0) && is_path_empty(pos, board),
        }
    }

    /// Returns the value of the piece.
    pub fn value(&self) -> (v: u8)
        ensures
            v == self.spec_value(),
    {
        match self {
            PieceKind::Bishop => 3,
            PieceKind::King => 0,
            PieceKind::Knight => 3,
            PieceKind::Pawn => 1,
            PieceKind::Queen => 9,
            PieceKind::Rook => 5,
        }
    }
}

impl Square {
    /// The colour of the piece on this square, if there is one.
    pub open spec fn spec_colour(self) -> Option<PieceColour> {
        match self {
            Square::Empty => None,
            Square::Piece { piece_colour, .. } => Some(piece_colour),
        }
    }

    /// The kind of the piece on this square, if there is one.
    pub open spec fn spec_kind(self) -> Option<PieceKind> {
        match self {
            Square::Empty => None,
            Square::Piece { piece_kind, .. } => Some(piece_kind),
        }
    }

    /// Returns the colour of the piece, if the square holds a piece.
    pub fn colour(&self) -> (c: Option<&PieceColour>)
        ensures
            match c {
                Some(r) => self.spec_colour() == Some(*r),
                None => self.spec_colour() is None,
            },
    {
        match self {
            Square::Empty => None,
            Square::Piece { piece_colour, .. } => Some(piece_colour),
        }
    }

    /// Returns the kind of the piece, if the square holds a piece.
    pub fn kind(&self) -> (k: Option<&PieceKind>)
        ensures
            match k {
                Some(r) => self.spec_kind() == Some(*r),
                None => self.spec_kind() is None,
            },
    {
        match self {
            Square::Empty => None,
            Square::Piece { piece_kind, .. } => Some(piece_kind),
        }
    }
}

/// The rows of a layout as a grid of the model.
pub open spec fn rows(layout: &BoardLayout) -> Seq<Seq<Square>> {
    Seq::new(layout@.len(), |y: int| layout@[y]@)
}

/// A chessboard: its grid, the moves played on it, and the colour to move.
pub struct Board {
    layout: BoardLayout,
    move_list: MoveList,
    player: PieceColour,
}

impl View for Board {
    type V = BoardView;

    closed spec fn view(&self) -> BoardView {
        BoardView { layout: rows(&self.layout), move_list: self.move_list@, player: self.player }
    }
}

impl Default for Board {
    /// The board at the start of a game.
    fn default() -> (board: Board)
        ensures
            board@ == BoardView::initial(),
            board.wf(),
    {
        Self { layout: Layouts::standard(), move_list: Vec::new(), player: PieceColour::White }
    }
}

impl Board {
    /// A board is well formed when its grid has eight rows of eight squares.
    pub open spec fn wf(&self) -> bool {
        self@.wf()
    }

    /// Checks if a move is valid.
    ///
    /// Takes in a `Move` and returns whether the board accepts it, or why it
    /// does not. The board is not changed.
    pub fn check_valid(&self, piece_move: &Move) -> (res: Result<(), ErrorKind>)
        requires
            self.wf(),
        ensures
            res == self@.verdict(*piece_move),
    {
        if piece_move.old_pos.y >= BOARD_SIZE || piece_move.old_pos.x >= BOARD_SIZE {
            return Err(ErrorKind::OutOfBounds);
        }
        if piece_move.new_pos.y >= BOARD_SIZE || piece_move.new_pos.x >= BOARD_SIZE {
            return Err(ErrorKind::OutOfBounds);
        }
        let old_square = self.layout[piece_move.old_pos.y][piece_move.old_pos.x];
        let new_square = self.layout[piece_move.new_pos.y][piece_move.new_pos.x];

        match old_square {
            // Player trying to move empty square
            Square::Empty => Err(ErrorKind::EmptyOrigin),
            Square::Piece { piece_colour, piece_kind } => {
                // Player trying to move opponent pieces
                if self.player != piece_colour {
                    return Err(ErrorKind::WrongPlayer);
                }
                // Player trying to destroy their own pieces
                if let Some(colour) = new_square.colour() {
                    if self.player == *colour {
                        return Err(ErrorKind::SelfCapture);
                    }
                }
                if !piece_kind.is_move_valid(piece_move, &piece_colour, self) {
                    return Err(ErrorKind::IllegalGeometry);
                }
                Ok(())
            },
        }
    }

    /// Returns a reference to the board layout.
    pub fn layout(&self) -> (layout: &BoardLayout)
        ensures
            rows(layout) == self@.layout,
    {
        &self.layout
    }

    /// Returns a reference to the move list.
    pub fn move_list(&self) -> (moves: &MoveList)
        ensures
            moves@ == self@.move_list,
    {
        &self.move_list
    }

    /// Moves a piece from one position to another.
    ///
    /// Takes in a `Move` and returns whether the board accepted it. An
    /// accepted move relocates the piece, replacing whatever stood at the
    /// destination, is appended to the move list, and passes the turn to the
    /// other player. A refused move leaves the board as it was.
    pub fn move_piece(&mut self, piece_move: Move) -> (res: Result<(), ErrorKind>)
        requires
            old(self).wf(),
        ensures
            res == old(self)@.verdict(piece_move),
            res is Ok ==> final(self)@ == old(self)@.after(piece_move),
            res is Err ==> final(self)@ == old(self)@,
            final(self)@.player == if res is Ok {
                old(self)@.player.opponent()
            } else {
                old(self)@.player
            },
            final(self).wf(),
    {
        if let Err(err) = self.check_valid(&piece_move) {
            return Err(err);
        }
        let moved_piece = self.layout[piece_move.old_pos.y][piece_move.old_pos.x];
        self.layout[piece_move.old_pos.y][piece_move.old_pos.x] = Square::Empty;
        self.layout[piece_move.new_pos.y][piece_move.new_pos.x] = moved_piece;
        self.move_list.push(piece_move);
        self.next_turn();
        assert(self@.layout =~~= old(self)@.grid_after(piece_move));
        Ok(())
    }

    /// Creates a new chessboard with the given configuration.
    pub fn new(layout: BoardLayout, move_list: MoveList, player: PieceColour) -> (board: Board)
        requires
            full_grid(rows(&layout)),
        ensures
            board@ == (BoardView { layout: rows(&layout), move_list: move_list@, player }),
            board.wf(),
    {
        Self { layout, move_list, player }
    }

    /// Switches to the next player.
    fn next_turn(&mut self)
        ensures
            final(self).player == old(self).player.opponent(),
            final(self).layout == old(self).layout,
            final(self).move_list == old(self).move_list,
    {
        self.player =
        match self.player {
            PieceColour::White => PieceColour::Black,
            PieceColour::Black => PieceColour::White,
        }
    }

    /// Returns a reference to the current player.
    pub fn player(&self) -> (player: &PieceColour)
        ensures
            *player == self@.player,
    {
        &self.player
    }
}

/// Contains pre-made layouts that can be used when configuring a custom
/// chessboard.
pub struct Layouts;

impl Layouts {
    /// A row of the pieces that start on a back rank, in the given colour.
    fn back_rank(colour: PieceColour) -> (rank: Vec<Square>)
        ensures
            rank@ == Seq::new(
                BOARD_SIZE as nat,
                |x: int| (Square::Piece { piece_colour: colour, piece_kind: back_rank_kind(x) }),
            ),
    {
        vec![
            Square::Piece { piece_kind: PieceKind::Rook, piece_colour: colour },
            Square::Piece { piece_kind: PieceKind::Knight, piece_colour: colour },
            Square::Piece { piece_kind: PieceKind::Bishop, piece_colour: colour },
            Square::Piece { piece_kind: PieceKind::Queen, piece_colour: colour },
            Square::Piece { piece_kind: PieceKind::King, piece_colour: colour },
            Square::Piece { piece_kind: PieceKind::Bishop, piece_colour: colour },
            Square::Piece { piece_kind: PieceKind::Knight, piece_colour: colour },
            Square::Piece { piece_kind: PieceKind::Rook, piece_colour: colour },
        ]
    }

    /// A row of eight copies of one square.
    fn uniform_rank(square: Square) -> (rank: Vec<Square>)
        ensures
            rank@ == Seq::new(BOARD_SIZE as nat, |x: int| square),
    {
        vec![square, square, square, square, square, square, square, square]
    }

    /// Checks if a layout has the eight rows of eight squares that a board
    /// is made of.
    pub fn is_full(layout: &BoardLayout) -> (full: bool)
        ensures
            full == full_grid(rows(layout)),
    {
        if layout.len() != BOARD_SIZE {
            return false;
        }
        let mut y: usize = 0;
        while y < BOARD_SIZE
            invariant
                y <= BOARD_SIZE,
                layout@.len() == BOARD_SIZE,
                forall|k: int| 0 <= k < y ==> (#[trigger] rows(layout)[k]).len() == BOARD_SIZE,
            decreases BOARD_SIZE - y,
        {
            if layout[y].len() != BOARD_SIZE {
                assert(rows(layout)[y as int].len() != BOARD_SIZE);
                return false;
            }
            y += 1;
        }
        true
    }

    /// The standard chessboard layout.
    ///
    /// Looks like this:
    /// ```text
    /// R N B Q K B N R
    /// P P P P P P P P
    /// ~ ~ ~ ~ ~ ~ ~ ~
    /// ~ ~ ~ ~ ~ ~ ~ ~
    /// ~ ~ ~ ~ ~ ~ ~ ~
    /// ~ ~ ~ ~ ~ ~ ~ ~
    /// P P P P P P P P
    /// R N B Q K B N R
    /// ```
    /// with Black in the two upper rows and White in the two lower ones.
    pub fn standard() -> (layout: BoardLayout)
        ensures
            rows(&layout) == standard_grid(),
            full_grid(rows(&layout)),
    {
        let black_pawn = Square::Piece {
            piece_kind: PieceKind::Pawn,
            piece_colour: PieceColour::Black,
        };
        let white_pawn = Square::Piece {
            piece_kind: PieceKind::Pawn,
            piece_colour: PieceColour::White,
        };
        let layout = vec![
            Layouts::back_rank(PieceColour::Black),
            Layouts::uniform_rank(black_pawn),
            Layouts::uniform_rank(Square::Empty),
            Layouts::uniform_rank(Square::Empty),
            Layouts::uniform_rank(Square::Empty),
            Layouts::uniform_rank(Square::Empty),
            Layouts::uniform_rank(white_pawn),
            Layouts::back_rank(PieceColour::White),
        ];
        assert(rows(&layout) =~~= standard_grid());
        layout
    }
}

/// The distance between two coordinates.
fn gap(a: usize, b: usize) -> (d: usize)
    ensures
        d == magnitude(b - a),
{
    if a > b {
        a - b
    } else {
        b - a
    }
}

/// The coordinate `i` steps from `from` in the direction of `to`.
fn advance(from: usize, to: usize, i: usize) -> (c: usize)
    requires
        to != from ==> i <= magnitude(to - from),
    ensures
        c == from + toward(to - from, i as int),
{
    if to > from {
        from + i
    } else if to < from {
        from - i
    } else {
        from
    }
}

/// Calculates if the path of a move is empty or not: whether every square
/// strictly between the origin and the destination is empty.
pub fn is_path_empty(piece_move: &Move, board: &Board) -> (clear: bool)
    requires
        board.wf(),
        on_board(piece_move.old_pos),
        on_board(piece_move.new_pos),
    ensures
        clear == path_clear(board@.layout, *piece_move),
{
    let x_diff = gap(piece_move.old_pos.x, piece_move.new_pos.x);
    let y_diff = gap(piece_move.old_pos.y, piece_move.new_pos.y);
    if x_diff != 0 && y_diff != 0 && x_diff != y_diff {
        return true;
    }
    let steps = if x_diff >= y_diff {
        x_diff
    } else {
        y_diff
    };
    let mut i: usize = 1;
    while i < steps
        invariant
            1 <= i,
            board.wf(),
            on_board(piece_move.old_pos),
            on_board(piece_move.new_pos),
            on_line(*piece_move),
            steps == reach(*piece_move),
            forall|j: int| 0 < j < i ==> (#[trigger] step_square(board@.layout, *piece_move, j)) is Empty,
        decreases steps - i,
    {
        let x = advance(piece_move.old_pos.x, piece_move.new_pos.x, i);
        let y = advance(piece_move.old_pos.y, piece_move.new_pos.y, i);
        if board.layout[y][x].kind().is_some() {
            assert(!(step_square(board@.layout, *piece_move, i as int) is Empty));
            return false;
        }
        i += 1;
    }
    true
}

} // verus!
