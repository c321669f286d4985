//! What holds of every board and every move, proved from the rules.

use vstd::prelude::*;
use crate::board::{ErrorKind, Move, PieceColour, PieceKind, Position, Square};
use crate::rules::{
    follows_line, full_grid, interior, move_allowed, on_board, path_clear, put, slides, step_pos,
    step_square, BoardView, BOARD_SIZE,
};

verus! {

/// A move with any of its four coordinates at eight or above is refused as
/// out of bounds, whatever stands on the board.
pub proof fn out_of_bounds_is_refused(b: BoardView, m: Move)
    requires
        m.old_pos.x >= BOARD_SIZE || m.old_pos.y >= BOARD_SIZE || m.new_pos.x >= BOARD_SIZE
            || m.new_pos.y >= BOARD_SIZE,
    ensures
        b.verdict(m) == Err::<(), ErrorKind>(ErrorKind::OutOfBounds),
{
}

/// A move between two positions on the board is never refused as out of
/// bounds.
pub proof fn on_board_is_in_bounds(b: BoardView, m: Move)
    requires
        on_board(m.old_pos),
        on_board(m.new_pos),
    ensures
        b.verdict(m) != Err::<(), ErrorKind>(ErrorKind::OutOfBounds),
{
}

/// A move from an empty square of the board is refused for its empty origin.
pub proof fn empty_origin_is_refused(b: BoardView, m: Move)
    requires
        on_board(m.old_pos),
        on_board(m.new_pos),
        b.at(m.old_pos) is Empty,
    ensures
        b.verdict(m) == Err::<(), ErrorKind>(ErrorKind::EmptyOrigin),
{
}

/// A move of a piece whose colour is not the colour to move is refused as
/// the wrong player's, whether or not the piece could move that way.
pub proof fn wrong_player_is_refused(b: BoardView, m: Move)
    requires
        on_board(m.old_pos),
        on_board(m.new_pos),
        b.at(m.old_pos) is Piece,
        b.at(m.old_pos).spec_colour() != Some(b.player),
    ensures
        b.verdict(m) == Err::<(), ErrorKind>(ErrorKind::WrongPlayer),
{
}

/// A move of a piece of the colour to move onto a piece of its own colour is
/// refused as a capture of one's own piece, whether or not the piece could
/// move that way.
pub proof fn self_capture_is_refused(b: BoardView, m: Move)
    requires
        on_board(m.old_pos),
        on_board(m.new_pos),
        b.at(m.old_pos).spec_colour() == Some(b.player),
        b.at(m.new_pos).spec_colour() == Some(b.player),
    ensures
        b.verdict(m) == Err::<(), ErrorKind>(ErrorKind::SelfCapture),
{
}

/// Whether a move is accepted depends on the grid and on the colour to move,
/// not on the moves played before.
pub proof fn verdict_ignores_move_list(b: BoardView, m: Move, moves: Seq<Move>)
    ensures
        (BoardView { move_list: moves, ..b }).verdict(m) == b.verdict(m),
{
}

/// A queen may make exactly the moves that a bishop or a rook may make from
/// the same square.
pub proof fn queen_moves_as_bishop_or_rook(colour: PieceColour, g: Seq<Seq<Square>>, m: Move)
    ensures
        move_allowed(PieceKind::Queen, colour, g, m) == (move_allowed(
            PieceKind::Bishop,
            colour,
            g,
            m,
        ) || move_allowed(PieceKind::Rook, colour, g, m)),
{
}

/// Two grids that hold the same squares in the interior of the path of a
/// move agree on whether that path is clear.
pub proof fn path_depends_on_interior(g: Seq<Seq<Square>>, h: Seq<Seq<Square>>, m: Move)
    requires
        forall|i: int|
            #![trigger step_square(g, m, i)]
            #![trigger step_square(h, m, i)]
            interior(m, i) ==> step_square(g, m, i) == step_square(h, m, i),
    ensures
        path_clear(g, m) == path_clear(h, m),
{
}

/// Whether the path of a move is clear does not depend on what stands at its
/// origin or at its destination.
pub proof fn path_ignores_its_ends(g: Seq<Seq<Square>>, m: Move, s: Square)
    requires
        full_grid(g),
        on_board(m.old_pos),
        on_board(m.new_pos),
    ensures
        path_clear(put(g, m.old_pos, s), m) == path_clear(g, m),
        path_clear(put(g, m.new_pos, s), m) == path_clear(g, m),
{
    let lifted = put(g, m.old_pos, s);
    let landed = put(g, m.new_pos, s);
    assert forall|i: int| interior(m, i) implies step_square(lifted, m, i) == step_square(
        g,
        m,
        i,
    ) && step_square(landed, m, i) == step_square(g, m, i) by {
        interior_steps_are_distinct(m, i, i);
    }
    path_depends_on_interior(lifted, g, m);
    path_depends_on_interior(landed, g, m);
}

/// A move that goes nowhere is never accepted.
pub proof fn null_move_is_refused(b: BoardView, m: Move)
    requires
        m.new_pos == m.old_pos,
    ensures
        b.verdict(m) is Err,
{
}

/// A move of a bishop, rook or queen of the colour to move, not onto a piece
/// of its own colour, is refused for its geometry when a piece of either
/// colour stands on a square in the interior of its path.
pub proof fn blocked_slide_is_refused(b: BoardView, m: Move, kind: PieceKind, i: int)
    requires
        on_board(m.old_pos),
        on_board(m.new_pos),
        b.at(m.old_pos) == (Square::Piece { piece_colour: b.player, piece_kind: kind }),
        slides(kind),
        b.at(m.new_pos).spec_colour() != Some(b.player),
        interior(m, i),
        step_square(b.layout, m, i) is Piece,
    ensures
        b.verdict(m) == Err::<(), ErrorKind>(ErrorKind::IllegalGeometry),
{
}

/// The steps in the interior of a move between two positions on the board
/// are positions on the board, all different, and none is the origin or the
/// destination.
pub proof fn interior_steps_are_distinct(m: Move, i: int, j: int)
    requires
        on_board(m.old_pos),
        on_board(m.new_pos),
        interior(m, i),
    ensures
        on_board(step_pos(m, i)),
        step_pos(m, i) != m.old_pos,
        step_pos(m, i) != m.new_pos,
        interior(m, j) && j != i ==> step_pos(m, j) != step_pos(m, i),
{
}

/// Where one piece alone stands in the interior of the path of a bishop,
/// rook or queen move along a line that the piece follows, the move is
/// refused for its geometry, and clearing that one square makes the same move
/// accepted.
pub proof fn cleared_slide_is_accepted(b: BoardView, m: Move, kind: PieceKind, i: int)
    requires
        b.wf(),
        on_board(m.old_pos),
        on_board(m.new_pos),
        b.at(m.old_pos) == (Square::Piece { piece_colour: b.player, piece_kind: kind }),
        slides(kind),
        b.at(m.new_pos).spec_colour() != Some(b.player),
        follows_line(kind, m),
        interior(m, i),
        step_square(b.layout, m, i) is Piece,
        forall|j: int|
            interior(m, j) && j != i ==> (#[trigger] step_square(b.layout, m, j)) is Empty,
    ensures
        b.verdict(m) == Err::<(), ErrorKind>(ErrorKind::IllegalGeometry),
        b.at(step_pos(m, i)) == step_square(b.layout, m, i),
        (BoardView { layout: put(b.layout, step_pos(m, i), Square::Empty), ..b }).verdict(m) is Ok,
{
    let cleared = BoardView { layout: put(b.layout, step_pos(m, i), Square::Empty), ..b };
    interior_steps_are_distinct(m, i, i);
    assert forall|j: int| interior(m, j) implies (#[trigger] step_square(cleared.layout, m, j))
        is Empty by {
        interior_steps_are_distinct(m, j, i);
        if j != i {
            assert(step_square(cleared.layout, m, j) == step_square(b.layout, m, j));
        }
    }
}

/// Playing a move that the board accepts leaves the origin empty, puts the
/// piece that stood there on the destination, and changes no other square;
/// the board stays well formed.
pub proof fn accepted_move_relocates(b: BoardView, m: Move, p: Position)
    requires
        b.wf(),
        b.verdict(m) is Ok,
        on_board(p),
    ensures
        b.after(m).wf(),
        b.after(m).at(p) == if p == m.new_pos {
            b.at(m.old_pos)
        } else if p == m.old_pos {
            Square::Empty
        } else {
            b.at(p)
        },
{
}

/// After an accepted move the other colour is to move, and the move is the
/// last of the list.
pub proof fn accepted_move_passes_turn(b: BoardView, m: Move)
    requires
        b.verdict(m) is Ok,
    ensures
        b.after(m).player != b.player,
        b.after(m).player.opponent() == b.player,
        b.after(m).move_list.len() == b.move_list.len() + 1,
        b.after(m).move_list.last() == m,
        b.after(m).move_list.drop_last() == b.move_list,
{
}

} // verus!
