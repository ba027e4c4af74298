//! The move-legality predicate and the geometry it rests on.
use vstd::prelude::*;
use crate::board::{is_board, square_at, BoardGrid};
use crate::coords::Position;
use crate::piece::{widen, Colour, GamePiece, PieceKind, Square};

verus! {

/// The displacement (change of file, change of rank) from `s` to `d`.
pub open spec fn move_vector(s: Position, d: Position) -> (int, int) {
    (d.0.coord() - s.0.coord(), d.1.coord() - s.1.coord())
}

/// Geometric coordinates (`x` for the file, `y` for the rank) that lie on the board.
pub open spec fn on_board(x: int, y: int) -> bool {
    0 <= x < 8 && 0 <= y < 8
}

/// The square at geometric coordinates (`x`, `y`).
pub open spec fn square_at_coords(grid: Seq<Vec<Square>>, x: int, y: int) -> Square {
    grid[7 - y]@[x]
}

/// The first `k - 1` squares met from `s` in direction `v` lie on the board and are empty.
pub open spec fn path_clear(grid: Seq<Vec<Square>>, s: Position, v: (int, int), k: int) -> bool {
    forall|j: int|
        1 <= j < k ==> {
            let x = s.0.coord() + #[trigger] (j * v.0);
            let y = s.1.coord() + j * v.1;
            on_board(x, y) && square_at_coords(grid, x, y) == Square::Empty
        }
}

/// `d` lies `k` steps of `v` away from `s`, and every square in between is empty.
pub open spec fn reaches_along(
    grid: Seq<Vec<Square>>,
    s: Position,
    d: Position,
    v: (int, int),
    k: int,
) -> bool {
    &&& move_vector(s, d) == (k * v.0, k * v.1)
    &&& path_clear(grid, s, v, k)
}

/// Using movement vector `v`, `piece` gets from `s` to `d`: in one step, or,
/// for a sliding piece, in several steps over empty squares.
pub open spec fn reaches_by(
    grid: Seq<Vec<Square>>,
    piece: GamePiece,
    s: Position,
    d: Position,
    v: (int, int),
) -> bool {
    exists|k: int|
        (k == 1 || (piece.kind.slides() && k > 1)) && #[trigger] reaches_along(grid, s, d, v, k)
}

/// The movement rules let `piece` get from `s` to `d` along one of its vectors.
pub open spec fn reaches(grid: Seq<Vec<Square>>, piece: GamePiece, s: Position, d: Position) -> bool {
    exists|v: (int, int)| piece.vectors().contains(v) && #[trigger] reaches_by(grid, piece, s, d, v)
}

/// The destination may be entered by a piece of `colour`: it is empty, or it
/// holds an opposing piece other than the king.
pub open spec fn may_enter(target: Square, colour: Colour) -> bool {
    match target {
        Square::Empty => true,
        Square::Piece(t) => t.colour != colour && t.kind != PieceKind::King,
    }
}

/// `player` may move the piece on `s` to `d`: the two squares differ, `s`
/// holds one of the player's pieces, `d` may be entered, and the piece's
/// movement rules reach `d`.
pub open spec fn valid_move(player: Colour, grid: Seq<Vec<Square>>, s: Position, d: Position) -> bool {
    &&& s != d
    &&& square_at(grid, s) matches Square::Piece(piece)
    &&& piece.colour == player
    &&& may_enter(square_at(grid, d), player)
    &&& reaches(grid, piece, s, d)
}

/// The displacement from `source_position` to `dest_position`.
pub fn calculate_move_vector(source_position: Position, dest_position: Position) -> (r: (i8, i8))
    ensures
        widen(r) == move_vector(source_position, dest_position),
{
    let x1 = source_position.0.value();
    let y1 = source_position.1.value();

    let x2 = dest_position.0.value();
    let y2 = dest_position.1.value();

    (x2 - x1, y2 - y1)
}

/// Walks from `source` in direction `v`, one square at a time, and says
/// whether it comes to `dest` before it meets an occupied square or leaves
/// the board.
fn slides_to(board: &BoardGrid, source: Position, dest: Position, v: (i8, i8)) -> (r: bool)
    requires
        is_board(board@),
        -1 <= v.0 <= 1,
        -1 <= v.1 <= 1,
        v.0 != 0 || v.1 != 0,
    ensures
        r == exists|k: int| k >= 1 && #[trigger] reaches_along(board@, source, dest, widen(v), k),
{
    let target = calculate_move_vector(source, dest);
    let x0 = source.0.value();
    let y0 = source.1.value();
    let mut k: i8 = 1;
    let mut dx: i8 = v.0;
    let mut dy: i8 = v.1;
    loop
        invariant
            is_board(board@),
            -1 <= v.0 <= 1,
            -1 <= v.1 <= 1,
            v.0 != 0 || v.1 != 0,
            widen(target) == move_vector(source, dest),
            x0 == source.0.coord(),
            y0 == source.1.coord(),
            1 <= k <= 8,
            dx == k * v.0,
            dy == k * v.1,
            -k <= dx <= k,
            -k <= dy <= k,
            path_clear(board@, source, widen(v), k as int),
            forall|j: int| 1 <= j < k ==> (#[trigger] (j * v.0), j * v.1) != widen(target),
        decreases 8 - k,
    {
        if dx == target.0 && dy == target.1 {
            assert(reaches_along(board@, source, dest, widen(v), k as int));
            return true;
        }
        let x = x0 + dx;
        let y = y0 + dy;
        if x < 0 || x > 7 || y < 0 || y > 7 {
            proof {
                assert forall|m: int| m >= 1 implies !#[trigger] reaches_along(
                    board@,
                    source,
                    dest,
                    widen(v),
                    m,
                ) by {
                    if m < k {
                        assert((m * v.0, m * v.1) != widen(target));
                    } else if m > k {
                        assert(1 <= k < m);
                        let kk = k as int;
                        assert(!on_board(source.0.coord() + kk * v.0, source.1.coord() + kk * v.1));
                    }
                }
            }
            return false;
        }
        if let Square::Piece(_) = board[(7 - y) as usize][x as usize] {
            proof {
                assert forall|m: int| m >= 1 implies !#[trigger] reaches_along(
                    board@,
                    source,
                    dest,
                    widen(v),
                    m,
                ) by {
                    if m < k {
                        assert((m * v.0, m * v.1) != widen(target));
                    } else if m > k {
                        let kk = k as int;
                        assert(square_at_coords(board@, source.0.coord() + kk * v.0, source.1.coord() + kk * v.1) != Square::Empty);
                    }
                }
            }
            return false;
        }
        proof {
            let kk = k as int;
            assert((kk + 1) * v.0 == kk * v.0 + v.0) by (nonlinear_arith);
            assert((kk + 1) * v.1 == kk * v.1 + v.1) by (nonlinear_arith);
        }
        k = k + 1;
        dx = dx + v.0;
        dy = dy + v.1;
    }
}

/// Whether `player_colour` may move the piece on `source_position` to
/// `dest_position`. The checks run in order and the first that fails decides:
/// the squares must differ, the source must hold one of the player's pieces,
/// the destination must be empty or hold an opposing piece other than the
/// king, and the piece's movement rules must reach the destination. Pawns,
/// knights and kings make one step of their vectors; bishops, rooks and
/// queens repeat one vector any number of times over empty squares.
pub fn is_valid_move(
    player_colour: Colour,
    board: &BoardGrid,
    source_position: Position,
    dest_position: Position,
) -> (r: bool)
    requires
        is_board(board@),
    ensures
        r == valid_move(player_colour, board@, source_position, dest_position),
{
    if source_position.0 == dest_position.0 && source_position.1 == dest_position.1 {
        return false;
    }

    let source_piece = match board[source_position.1.index()][source_position.0.index()] {
        Square::Empty => return false,
        Square::Piece(p) => p,
    };

    if source_piece.colour != player_colour {
        return false;
    }

    if let Square::Piece(dest_piece) = board[dest_position.1.index()][dest_position.0.index()] {
        if dest_piece.colour == player_colour {
            return false;
        }
        if let PieceKind::King = dest_piece.kind {
            return false;
        }
    }

    let offset = calculate_move_vector(source_position, dest_position);
    let vectors = source_piece.move_vectors();
    let slides = matches!(source_piece.kind, PieceKind::Bishop | PieceKind::Rook | PieceKind::Queen);
    let ghost grid = board@;
    let mut is_movement_valid = false;
    for i in 0..vectors.len()
        invariant
            grid == board@,
            is_board(grid),
            slides == source_piece.kind.slides(),
            widen(offset) == move_vector(source_position, dest_position),
            forall|j: int| 0 <= j < vectors.len() ==> source_piece.vectors().contains(#[trigger] widen(vectors@[j])),
            is_movement_valid == exists|j: int|
                0 <= j < i && #[trigger] reaches_by(grid, source_piece, source_position, dest_position, widen(vectors@[j])),
    {
        let v = vectors[i];
        assert(source_piece.vectors().contains(widen(vectors@[i as int])));
        let hit = if slides {
            slides_to(board, source_position, dest_position, v)
        } else {
            offset.0 == v.0 && offset.1 == v.1
        };
        proof {
            if !slides && hit {
                assert(reaches_along(grid, source_position, dest_position, widen(v), 1));
            }
            assert(hit == reaches_by(grid, source_piece, source_position, dest_position, widen(v)));
        }
        if hit {
            is_movement_valid = true;
        }
    }
    proof {
        let reached = reaches(grid, source_piece, source_position, dest_position);
        if reached {
            let v = choose|v: (int, int)|
                source_piece.vectors().contains(v) && #[trigger] reaches_by(grid, source_piece, source_position, dest_position, v);
            let j = choose|j: int| 0 <= j < vectors.len() && widen(vectors@[j]) == v;
            assert(reaches_by(grid, source_piece, source_position, dest_position, widen(vectors@[j])));
        }
        if is_movement_valid {
            let j = choose|j: int|
                0 <= j < vectors.len() && #[trigger] reaches_by(grid, source_piece, source_position, dest_position, widen(vectors@[j]));
            assert(source_piece.vectors().contains(widen(vectors@[j])));
        }
    }
    is_movement_valid
}

/// A piece can never be moved onto the square it stands on.
pub proof fn lemma_no_move_in_place(player: Colour, grid: Seq<Vec<Square>>, p: Position)
    ensures
        !valid_move(player, grid, p, p),
{
}

/// No move starts from an empty square, whatever the destination.
pub proof fn lemma_empty_source_rejected(player: Colour, grid: Seq<Vec<Square>>, s: Position, d: Position)
    requires
        square_at(grid, s) == Square::Empty,
    ensures
        !valid_move(player, grid, s, d),
{
}

/// A player never moves a piece of the other side.
pub proof fn lemma_opponent_piece_rejected(
    player: Colour,
    grid: Seq<Vec<Square>>,
    s: Position,
    d: Position,
    piece: GamePiece,
)
    requires
        square_at(grid, s) == Square::Piece(piece),
        piece.colour != player,
    ensures
        !valid_move(player, grid, s, d),
{
}

/// A player never captures one of their own pieces.
pub proof fn lemma_own_capture_rejected(
    player: Colour,
    grid: Seq<Vec<Square>>,
    s: Position,
    d: Position,
    target: GamePiece,
)
    requires
        square_at(grid, d) == Square::Piece(target),
        target.colour == player,
    ensures
        !valid_move(player, grid, s, d),
{
}

/// The opposing king is never captured, however the moving piece could
/// otherwise reach its square.
pub proof fn lemma_king_capture_rejected(
    player: Colour,
    grid: Seq<Vec<Square>>,
    s: Position,
    d: Position,
    target: GamePiece,
)
    requires
        square_at(grid, d) == Square::Piece(target),
        target.kind == PieceKind::King,
    ensures
        !valid_move(player, grid, s, d),
{
}

/// The displacement from `b` to `a` is the negation of the one from `a` to
/// `b`, and the displacement from a square to itself is zero.
pub proof fn lemma_move_vector_antisymmetric(a: Position, b: Position)
    ensures
        move_vector(a, b) == (-move_vector(b, a).0, -move_vector(b, a).1),
        move_vector(a, a) == (0int, 0int),
{
}

} // verus!
