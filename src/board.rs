//! The board grid: construction, access and the standard starting position.
use vstd::prelude::*;
use crate::coords::{File, Position, Rank};
use crate::piece::{Colour, GamePiece, PieceKind, Square};

verus! {

/// Rows of squares. Row 0 holds rank 8 and row 7 holds rank 1; within a row,
/// column 0 is file A.
pub type BoardGrid = Vec<Vec<Square>>;

/// The grid has `rows` rows of `cols` squares each.
pub open spec fn has_shape(grid: Seq<Vec<Square>>, rows: int, cols: int) -> bool {
    &&& grid.len() == rows
    &&& forall|r: int| 0 <= r < rows ==> (#[trigger] grid[r])@.len() == cols
}

/// The grid is a chess board: 8 rows of 8 squares.
pub open spec fn is_board(grid: Seq<Vec<Square>>) -> bool {
    has_shape(grid, 8, 8)
}

/// The square at a position of the board.
pub open spec fn square_at(grid: Seq<Vec<Square>>, p: Position) -> Square {
    grid[p.1.row()]@[p.0.col()]
}

/// The kind of piece that starts on a file of a back rank.
pub open spec fn back_rank_kind(file: File) -> PieceKind {
    match file {
        File::A | File::H => PieceKind::Rook,
        File::B | File::G => PieceKind::Knight,
        File::C | File::F => PieceKind::Bishop,
        File::D => PieceKind::Queen,
        File::E => PieceKind::King,
    }
}

/// What the starting position holds at `p`: White's pieces on rank 1 and
/// pawns on rank 2, Black's pawns on rank 7 and pieces on rank 8, mirrored
/// file for file; ranks 3 to 6 are empty.
pub open spec fn standard_square(p: Position) -> Square {
    match p.1 {
        Rank::One => Square::Piece(GamePiece { colour: Colour::White, kind: back_rank_kind(p.0) }),
        Rank::Two => Square::Piece(GamePiece { colour: Colour::White, kind: PieceKind::Pawn }),
        Rank::Seven => Square::Piece(GamePiece { colour: Colour::Black, kind: PieceKind::Pawn }),
        Rank::Eight => Square::Piece(GamePiece { colour: Colour::Black, kind: back_rank_kind(p.0) }),
        _ => Square::Empty,
    }
}

/// A grid of `size_x` rows of `size_y` empty squares.
pub fn generate_empty_board_grid(size_x: u8, size_y: u8) -> (grid: BoardGrid)
    ensures
        has_shape(grid@, size_x as int, size_y as int),
        forall|r: int, c: int|
            0 <= r < size_x && 0 <= c < size_y ==> #[trigger] grid@[r]@[c] == Square::Empty,
{
    let mut grid: BoardGrid = Vec::new();
    for x in 0..size_x
        invariant
            has_shape(grid@, x as int, size_y as int),
            forall|r: int, c: int|
                0 <= r < x && 0 <= c < size_y ==> #[trigger] grid@[r]@[c] == Square::Empty,
    {
        let mut rank: Vec<Square> = Vec::new();
        for y in 0..size_y
            invariant
                rank@.len() == y,
                forall|c: int| 0 <= c < y ==> #[trigger] rank@[c] == Square::Empty,
        {
            rank.push(Square::Empty);
        }
        grid.push(rank);
    }
    grid
}

/// Puts `square` at (`file`, `rank`), leaving every other square as it was.
pub fn set_board_square(file: File, rank: Rank, board_grid: &mut BoardGrid, square: Square)
    requires
        rank.row() < old(board_grid)@.len(),
        file.col() < old(board_grid)@[rank.row()]@.len(),
    ensures
        final(board_grid)@.len() == old(board_grid)@.len(),
        final(board_grid)@[rank.row()]@ == old(board_grid)@[rank.row()]@.update(file.col(), square),
        forall|r: int|
            0 <= r < old(board_grid)@.len() && r != rank.row() ==> #[trigger] final(board_grid)@[r]
                == old(board_grid)@[r],
{
    board_grid[rank.index()][file.index()] = square;
}

/// The standard starting position on an 8×8 grid.
pub fn generate_board() -> (board_grid: BoardGrid)
    ensures
        is_board(board_grid@),
        forall|p: Position| #[trigger] square_at(board_grid@, p) == standard_square(p),
{
    let mut board_grid = generate_empty_board_grid(8, 8);
    let back_rank: Vec<(File, PieceKind)> = vec![
        (File::A, PieceKind::Rook),
        (File::B, PieceKind::Knight),
        (File::C, PieceKind::Bishop),
        (File::D, PieceKind::Queen),
        (File::E, PieceKind::King),
        (File::F, PieceKind::Bishop),
        (File::G, PieceKind::Knight),
        (File::H, PieceKind::Rook),
    ];
    for i in 0..8usize
        invariant
            is_board(board_grid@),
            back_rank@.len() == 8,
            forall|j: int|
                0 <= j < 8 ==> (#[trigger] back_rank@[j]).0.col() == j && back_rank@[j].1
                    == back_rank_kind(back_rank@[j].0),
            forall|p: Position|
                p.0.col() < i ==> #[trigger] square_at(board_grid@, p) == standard_square(p),
            forall|p: Position|
                p.0.col() >= i ==> #[trigger] square_at(board_grid@, p) == Square::Empty,
    {
        let (file, kind) = back_rank[i];
        let ghost before = board_grid@;
        let white_pawn = GamePiece { colour: Colour::White, kind: PieceKind::Pawn };
        let black_pawn = GamePiece { colour: Colour::Black, kind: PieceKind::Pawn };
        set_board_square(file, Rank::One, &mut board_grid, Square::Piece(GamePiece { colour: Colour::White, kind }));
        set_board_square(file, Rank::Two, &mut board_grid, Square::Piece(white_pawn));
        set_board_square(file, Rank::Seven, &mut board_grid, Square::Piece(black_pawn));
        set_board_square(file, Rank::Eight, &mut board_grid, Square::Piece(GamePiece { colour: Colour::Black, kind }));
        proof {
            assert forall|p: Position|
                #[trigger] square_at(board_grid@, p) == if p.0 == file {
                    standard_square(p)
                } else {
                    square_at(before, p)
                } by {
                if p.0 != file {
                    assert(p.0.col() != file.col());
                }
            }
        }
    }
    board_grid
}

} // verus!
