//! Colours, piece kinds, pieces and squares, and the movement-vector catalog.
use vstd::prelude::*;
use vstd::string::*;

verus! {

/// The side a piece belongs to.
#[derive(Clone, Copy, Debug, PartialEq, Eq, Structural)]
pub enum Colour {
    White,
    Black,
}

/// The six kinds of chess piece.
#[derive(Clone, Copy, Debug, PartialEq, Eq, Structural)]
pub enum PieceKind {
    Pawn,
    Knight,
    Bishop,
    Rook,
    Queen,
    King,
}

/// A piece: its colour and its kind.
#[derive(Clone, Copy, Debug, PartialEq, Eq, Structural)]
pub struct GamePiece {
    pub colour: Colour,
    pub kind: PieceKind,
}

/// One cell of the board: empty, or holding a piece.
#[derive(Clone, Copy, Debug, PartialEq, Eq, Structural)]
pub enum Square {
    Empty,
    Piece(GamePiece),
}

/// A displacement (change of file, change of rank) as a pair of integers.
pub open spec fn widen(v: (i8, i8)) -> (int, int) {
    (v.0 as int, v.1 as int)
}

/// The four one-square steps along a file or a rank.
pub open spec fn orthogonal_steps() -> Set<(int, int)> {
    set![(0, 1), (0, -1), (1, 0), (-1, 0)]
}

/// The four one-square diagonal steps.
pub open spec fn diagonal_steps() -> Set<(int, int)> {
    set![(1, 1), (1, -1), (-1, -1), (-1, 1)]
}

/// The eight L-shaped knight jumps.
pub open spec fn knight_jumps() -> Set<(int, int)> {
    set![(1, 2), (2, 1), (2, -1), (1, -2), (-1, -2), (-2, -1), (-2, 1), (-1, 2)]
}

impl Colour {
    /// The direction in which this side's pawns advance: up the ranks for
    /// White, down for Black.
    pub open spec fn forward(self) -> int {
        match self {
            Colour::White => 1,
            Colour::Black => -1,
        }
    }

    /// The colour's name as text.
    pub open spec fn label(self) -> Seq<char> {
        match self {
            Colour::White => "White"@,
            Colour::Black => "Black"@,
        }
    }

    /// The colour's name, `"White"` or `"Black"`.
    pub fn name(&self) -> (r: String)
        ensures
            r@ == self.label(),
    {
        match *self {
            Colour::White => String::from_str("White"),
            Colour::Black => String::from_str("Black"),
        }
    }
}

impl PieceKind {
    /// Bishops, rooks and queens move any distance along one of their
    /// directions; the other kinds make a single step or jump.
    pub open spec fn slides(self) -> bool {
        match self {
            PieceKind::Bishop | PieceKind::Rook | PieceKind::Queen => true,
            _ => false,
        }
    }

    /// The kind's name as text.
    pub open spec fn label(self) -> Seq<char> {
        match self {
            PieceKind::Pawn => "Pawn"@,
            PieceKind::Knight => "Knight"@,
            PieceKind::Bishop => "Bishop"@,
            PieceKind::Rook => "Rook"@,
            PieceKind::Queen => "Queen"@,
            PieceKind::King => "King"@,
        }
    }

    /// The kind's letter in algebraic notation.
    pub open spec fn letter(self) -> char {
        match self {
            PieceKind::Pawn => 'P',
            PieceKind::Knight => 'N',
            PieceKind::Bishop => 'B',
            PieceKind::Rook => 'R',
            PieceKind::Queen => 'Q',
            PieceKind::King => 'K',
        }
    }

    /// The kind's English name, such as `"Knight"`.
    pub fn name(&self) -> (r: String)
        ensures
            r@ == self.label(),
    {
        match *self {
            PieceKind::Pawn => String::from_str("Pawn"),
            PieceKind::Knight => String::from_str("Knight"),
            PieceKind::Bishop => String::from_str("Bishop"),
            PieceKind::Rook => String::from_str("Rook"),
            PieceKind::Queen => String::from_str("Queen"),
            PieceKind::King => String::from_str("King"),
        }
    }

    /// The kind's letter in algebraic notation (`'N'` for a knight).
    pub fn symbol(&self) -> (r: char)
        ensures
            r == self.letter(),
    {
        match *self {
            PieceKind::Pawn => 'P',
            PieceKind::Knight => 'N',
            PieceKind::Bishop => 'B',
            PieceKind::Rook => 'R',
            PieceKind::Queen => 'Q',
            PieceKind::King => 'K',
        }
    }
}

impl GamePiece {
    /// The piece's movement vectors: the unit displacements it may make.
    /// A pawn steps one rank towards the opposing side; rooks move along
    /// files and ranks, bishops along diagonals, queens and kings both ways.
    pub open spec fn vectors(self) -> Set<(int, int)> {
        match self.kind {
            PieceKind::Pawn => set![(0, self.colour.forward())],
            PieceKind::Knight => knight_jumps(),
            PieceKind::Bishop => diagonal_steps(),
            PieceKind::Rook => orthogonal_steps(),
            PieceKind::Queen | PieceKind::King => orthogonal_steps().union(diagonal_steps()),
        }
    }

    /// Lists the piece's movement vectors, each once.
    pub fn move_vectors(&self) -> (r: Vec<(i8, i8)>)
        ensures
            r@.no_duplicates(),
            forall|i: int| 0 <= i < r.len() ==> self.vectors().contains(#[trigger] widen(r@[i])),
            forall|v: (int, int)|
                #[trigger] self.vectors().contains(v) ==> exists|i: int|
                    0 <= i < r.len() && widen(r@[i]) == v,
    {
        match self.kind {
            PieceKind::Pawn => {
                let forward: i8 = match self.colour {
                    Colour::White => 1,
                    Colour::Black => -1,
                };
                vec![(0, forward)]
            },
            PieceKind::Knight => vec![(1, 2), (2, 1), (2, -1), (1, -2), (-1, -2), (-2, -1), (-2, 1), (-1, 2)],
            PieceKind::Bishop => vec![(1, 1), (1, -1), (-1, -1), (-1, 1)],
            PieceKind::Rook => vec![(0, 1), (0, -1), (1, 0), (-1, 0)],
            PieceKind::Queen | PieceKind::King => vec![(0, 1), (0, -1), (1, 0), (-1, 0), (1, 1), (1, -1), (-1, -1), (-1, 1)],
        }
    }
}

impl GamePiece {
    /// Colour name, a space, kind name.
    pub open spec fn label(self) -> Seq<char> {
        self.colour.label() + " "@ + self.kind.label()
    }

    /// The piece as text: its colour, a space and its kind, as in `"White Knight"`.
    pub fn description(&self) -> (r: String)
        ensures
            r@ == self.label(),
    {
        let colour = self.colour.name();
        let kind = self.kind.name();
        colour.concat(" ").concat(kind.as_str())
    }
}

impl Square {
    /// A single space for an empty square, else the piece's text.
    pub open spec fn label(self) -> Seq<char> {
        match self {
            Square::Empty => " "@,
            Square::Piece(p) => p.label(),
        }
    }

    /// The square as text: a single space when empty, else its piece's description.
    pub fn description(&self) -> (r: String)
        ensures
            r@ == self.label(),
    {
        match self {
            Square::Empty => String::from_str(" "),
            Square::Piece(p) => p.description(),
        }
    }
}

/// The kinds of one side's sixteen pieces: eight pawns, two rooks, two
/// knights, two bishops, the queen and the king.
pub open spec fn piece_set_kinds() -> Seq<PieceKind> {
    seq![
        PieceKind::Pawn, PieceKind::Pawn, PieceKind::Pawn, PieceKind::Pawn,
        PieceKind::Pawn, PieceKind::Pawn, PieceKind::Pawn, PieceKind::Pawn,
        PieceKind::Rook, PieceKind::Rook, PieceKind::Knight, PieceKind::Knight,
        PieceKind::Bishop, PieceKind::Bishop, PieceKind::Queen, PieceKind::King,
    ]
}

/// The sixteen pieces one side starts with, all of `colour`, in the order of
/// [`piece_set_kinds`].
pub fn generate_piece_set(colour: Colour) -> (set: Vec<GamePiece>)
    ensures
        set@.len() == piece_set_kinds().len(),
        forall|i: int|
            0 <= i < set@.len() ==> #[trigger] set@[i] == (GamePiece { colour, kind: piece_set_kinds()[i] }),
{
    let kinds: Vec<PieceKind> = vec![
        PieceKind::Pawn, PieceKind::Pawn, PieceKind::Pawn, PieceKind::Pawn,
        PieceKind::Pawn, PieceKind::Pawn, PieceKind::Pawn, PieceKind::Pawn,
        PieceKind::Rook, PieceKind::Rook, PieceKind::Knight, PieceKind::Knight,
        PieceKind::Bishop, PieceKind::Bishop, PieceKind::Queen, PieceKind::King,
    ];
    let mut new_piece_set: Vec<GamePiece> = Vec::new();
    for i in 0..kinds.len()
        invariant
            kinds@ == piece_set_kinds(),
            new_piece_set@.len() == i,
            forall|j: int|
                0 <= j < i ==> #[trigger] new_piece_set@[j] == (GamePiece { colour, kind: piece_set_kinds()[j] }),
    {
        new_piece_set.push(GamePiece { colour, kind: kinds[i] });
    }
    new_piece_set
}

} // verus!
