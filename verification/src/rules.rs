//! The rules of movement, stated over the mathematical model of a board: a
//! grid of squares (a sequence of rows), the colour to move, and the moves
//! played so far.
//!
//! A position's `x` selects the column and its `y` the row, so the square at a
//! position `p` of a grid `g` is `g[p.y][p.x]`. Row 0 is Black's back rank and
//! row 7 is White's: White's pawns advance towards row 0, Black's towards
//! row 7.

use vstd::prelude::*;
use crate::board::{ErrorKind, Move, PieceColour, PieceKind, Position, Square};

verus! {

/// The number of rows of a board, and of squares in each row.
pub const BOARD_SIZE: usize = 8;

/// The mathematical model of a board.
pub struct BoardView {
    /// The rows of the grid, each a sequence of squares.
    pub layout: Seq<Seq<Square>>,
    /// The moves accepted so far, oldest first.
    pub move_list: Seq<Move>,
    /// The colour whose pieces may move next.
    pub player: PieceColour,
}

/// A grid is full when it has eight rows of eight squares.
pub open spec fn full_grid(g: Seq<Seq<Square>>) -> bool {
    &&& g.len() == BOARD_SIZE
    &&& forall|y: int| 0 <= y < BOARD_SIZE ==> (#[trigger] g[y]).len() == BOARD_SIZE
}

/// A position is on the board when both coordinates are below eight.
pub open spec fn on_board(p: Position) -> bool {
    p.x < BOARD_SIZE && p.y < BOARD_SIZE
}

/// The square of `g` at position `p`.
pub open spec fn square_at(g: Seq<Seq<Square>>, p: Position) -> Square {
    g[p.y as int][p.x as int]
}

/// The signed change of column of a move.
pub open spec fn dx(m: Move) -> int {
    m.new_pos.x - m.old_pos.x
}

/// The signed change of row of a move.
pub open spec fn dy(m: Move) -> int {
    m.new_pos.y - m.old_pos.y
}

/// The absolute value of `d`.
pub open spec fn magnitude(d: int) -> int {
    if d < 0 {
        -d
    } else {
        d
    }
}

/// The number of single steps from a move's origin to its destination:
/// the larger of the two absolute changes.
pub open spec fn reach(m: Move) -> int {
    if magnitude(dx(m)) >= magnitude(dy(m)) {
        magnitude(dx(m))
    } else {
        magnitude(dy(m))
    }
}

/// `i` steps in the direction of `d`: `i`, `-i` or `0` by the sign of `d`.
pub open spec fn toward(d: int, i: int) -> int {
    if d > 0 {
        i
    } else if d < 0 {
        -i
    } else {
        0
    }
}

/// A move is diagonal when both coordinates change by the same amount.
pub open spec fn diagonal(m: Move) -> bool {
    magnitude(dx(m)) == magnitude(dy(m))
}

/// A move is straight when exactly one of the two coordinates changes.
pub open spec fn straight(m: Move) -> bool {
    (dx(m) == 0) != (dy(m) == 0)
}

/// A move runs along a line when it stays in its column, stays in its row, or
/// is diagonal.
pub open spec fn on_line(m: Move) -> bool {
    dx(m) == 0 || dy(m) == 0 || diagonal(m)
}

/// The square of `g` that lies `i` steps from the origin of `m` towards its
/// destination.
pub open spec fn step_square(g: Seq<Seq<Square>>, m: Move, i: int) -> Square {
    g[m.old_pos.y + toward(dy(m), i)][m.old_pos.x + toward(dx(m), i)]
}

/// Step `i` of a move lies in its interior when the move runs along a line
/// and the step falls strictly between the origin and the destination.
pub open spec fn interior(m: Move, i: int) -> bool {
    on_line(m) && 0 < i < reach(m)
}

/// The position `i` steps from the origin of `m` towards its destination,
/// for a step in the interior of a move between two positions on the board.
pub open spec fn step_pos(m: Move, i: int) -> Position {
    Position {
        x: (m.old_pos.x + toward(dx(m), i)) as usize,
        y: (m.old_pos.y + toward(dy(m), i)) as usize,
    }
}

/// The path of a move is clear when every square strictly between its origin
/// and its destination is empty. The two end squares are never looked at. A
/// move that does not run along a line has no squares in between.
pub open spec fn path_clear(g: Seq<Seq<Square>>, m: Move) -> bool {
    forall|i: int| interior(m, i) ==> (#[trigger] step_square(g, m, i)) is Empty
}

/// The direction in which a pawn advances: the change of row of one step.
/// White's pawns go towards row 0, Black's towards row 7.
pub open spec fn forward(colour: PieceColour) -> int {
    match colour {
        PieceColour::White => -1,
        PieceColour::Black => 1,
    }
}

/// A king moves to any of the eight adjacent squares.
pub open spec fn king_moves(m: Move) -> bool {
    reach(m) == 1
}

/// A knight moves two squares along one axis and one along the other.
pub open spec fn knight_moves(m: Move) -> bool {
    ||| magnitude(dx(m)) == 2 && magnitude(dy(m)) == 1
    ||| magnitude(dx(m)) == 1 && magnitude(dy(m)) == 2
}

/// A pawn advances one square onto an empty square, advances two squares
/// over an empty square onto an empty square, or captures one square
/// diagonally forward onto an occupied square.
pub open spec fn pawn_moves(g: Seq<Seq<Square>>, m: Move, colour: PieceColour) -> bool {
    ||| dx(m) == 0 && dy(m) == forward(colour) && square_at(g, m.new_pos) is Empty
    ||| {
        &&& dx(m) == 0 && dy(m) == 2 * forward(colour)
        &&& path_clear(g, m)
        &&& square_at(g, m.new_pos) is Empty
    }
    ||| magnitude(dx(m)) == 1 && dy(m) == forward(colour) && square_at(g, m.new_pos) is Piece
}

/// The sliding pieces: those that move any distance along a line.
pub open spec fn slides(kind: PieceKind) -> bool {
    kind is Bishop || kind is Rook || kind is Queen
}

/// Whether the line of a move is one that a sliding piece of the given kind
/// follows: a diagonal for a bishop, a row or a column for a rook, any of
/// them for a queen.
pub open spec fn follows_line(kind: PieceKind, m: Move) -> bool {
    match kind {
        PieceKind::Bishop => diagonal(m),
        PieceKind::Rook => straight(m),
        PieceKind::Queen => diagonal(m) || straight(m),
        _ => false,
    }
}

/// Whether a piece of the given kind and colour may make the move `m` on the
/// grid `g`, by the geometry of the move and what stands in its path.
pub open spec fn move_allowed(
    kind: PieceKind,
    colour: PieceColour,
    g: Seq<Seq<Square>>,
    m: Move,
) -> bool {
    match kind {
        PieceKind::King => king_moves(m),
        PieceKind::Knight => knight_moves(m),
        PieceKind::Bishop => diagonal(m) && path_clear(g, m),
        PieceKind::Rook => straight(m) && path_clear(g, m),
        PieceKind::Queen => (diagonal(m) || straight(m)) && path_clear(g, m),
        PieceKind::Pawn => pawn_moves(g, m, colour),
    }
}

/// The kind of the piece that starts in column `x` of a back rank: rook,
/// knight, bishop, queen, king, bishop, knight, rook.
pub open spec fn back_rank_kind(x: int) -> PieceKind {
    if x == 0 || x == 7 {
        PieceKind::Rook
    } else if x == 1 || x == 6 {
        PieceKind::Knight
    } else if x == 2 || x == 5 {
        PieceKind::Bishop
    } else if x == 3 {
        PieceKind::Queen
    } else {
        PieceKind::King
    }
}

/// The square in column `x` of row `y` at the start of a game: Black's back
/// rank in row 0 and pawns in row 1, White's pawns in row 6 and back rank in
/// row 7, and four empty rows between.
pub open spec fn standard_square(x: int, y: int) -> Square {
    if y == 0 {
        Square::Piece { piece_colour: PieceColour::Black, piece_kind: back_rank_kind(x) }
    } else if y == 1 {
        Square::Piece { piece_colour: PieceColour::Black, piece_kind: PieceKind::Pawn }
    } else if y == 6 {
        Square::Piece { piece_colour: PieceColour::White, piece_kind: PieceKind::Pawn }
    } else if y == 7 {
        Square::Piece { piece_colour: PieceColour::White, piece_kind: back_rank_kind(x) }
    } else {
        Square::Empty
    }
}

/// The grid at the start of a game.
pub open spec fn standard_grid() -> Seq<Seq<Square>> {
    Seq::new(BOARD_SIZE as nat, |y: int| Seq::new(BOARD_SIZE as nat, |x: int| standard_square(x, y)))
}

/// The grid `g` with the square at position `p` replaced by `s`.
pub open spec fn put(g: Seq<Seq<Square>>, p: Position, s: Square) -> Seq<Seq<Square>> {
    g.update(p.y as int, g[p.y as int].update(p.x as int, s))
}

impl BoardView {
    /// The board at the start of a game: the standard grid, no move played,
    /// White to move.
    pub open spec fn initial() -> BoardView {
        BoardView {
            layout: standard_grid(),
            move_list: Seq::empty(),
            player: PieceColour::White,
        }
    }

    /// A board is well formed when its grid is full.
    pub open spec fn wf(self) -> bool {
        full_grid(self.layout)
    }

    /// The square at position `p`.
    pub open spec fn at(self, p: Position) -> Square {
        square_at(self.layout, p)
    }

    /// The verdict on a requested move. Five conditions are examined in a
    /// fixed order and the first that fails names the error: both positions
    /// are on the board, a piece stands at the origin, that piece is of the
    /// colour to move, no piece of that colour stands at the destination, and
    /// the move is allowed to the piece.
    pub open spec fn verdict(self, m: Move) -> Result<(), ErrorKind> {
        if !on_board(m.old_pos) || !on_board(m.new_pos) {
            Err(ErrorKind::OutOfBounds)
        } else {
            match self.at(m.old_pos) {
                Square::Empty => Err(ErrorKind::EmptyOrigin),
                Square::Piece { piece_colour, piece_kind } => {
                    if piece_colour != self.player {
                        Err(ErrorKind::WrongPlayer)
                    } else if self.at(m.new_pos).spec_colour() == Some(self.player) {
                        Err(ErrorKind::SelfCapture)
                    } else if !move_allowed(piece_kind, piece_colour, self.layout, m) {
                        Err(ErrorKind::IllegalGeometry)
                    } else {
                        Ok(())
                    }
                },
            }
        }
    }

    /// The grid after the piece at the origin of `m` has been lifted and set
    /// down at its destination, replacing whatever stood there.
    pub open spec fn grid_after(self, m: Move) -> Seq<Seq<Square>> {
        put(put(self.layout, m.old_pos, Square::Empty), m.new_pos, self.at(m.old_pos))
    }

    /// The board after the move `m` has been played: the piece relocated, the
    /// move appended to the list, and the turn passed to the other colour.
    pub open spec fn after(self, m: Move) -> BoardView {
        BoardView {
            layout: self.grid_after(m),
            move_list: self.move_list.push(m),
            player: self.player.opponent(),
        }
    }
}

} // verus!
