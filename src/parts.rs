//! The visual parts each kind of piece is drawn with. A part is a mesh
//! placed at a fixed offset from the piece and scaled by a fixed factor;
//! lengths are in hundredths of a grid unit.

use vstd::prelude::*;
use crate::pieces::PieceType;

verus! {

/// The scale of every part relative to its piece, in hundredths.
pub const PART_SCALE_HUNDREDTHS: i32 = 20;

/// The meshes of the chess kit.
#[derive(Clone, Copy, Debug, PartialEq, Eq, Structural)]
pub enum PieceMesh {
    King,
    KingCross,
    Pawn,
    Knight1,
    Knight2,
    Rook,
    Bishop,
    Queen,
}

/// The place of each mesh in the chess kit.
pub open spec fn mesh_index(mesh: PieceMesh) -> u8 {
    match mesh {
        PieceMesh::King => 0,
        PieceMesh::KingCross => 1,
        PieceMesh::Pawn => 2,
        PieceMesh::Knight1 => 3,
        PieceMesh::Knight2 => 4,
        PieceMesh::Rook => 5,
        PieceMesh::Bishop => 6,
        PieceMesh::Queen => 7,
    }
}

impl PieceMesh {
    /// The place of this mesh in the chess kit.
    pub fn asset_index(&self) -> (r: u8)
        ensures
            r == mesh_index(*self),
    {
        match self {
            PieceMesh::King => 0,
            PieceMesh::KingCross => 1,
            PieceMesh::Pawn => 2,
            PieceMesh::Knight1 => 3,
            PieceMesh::Knight2 => 4,
            PieceMesh::Rook => 5,
            PieceMesh::Bishop => 6,
            PieceMesh::Queen => 7,
        }
    }
}

/// One mesh of a piece, at an offset from the piece in hundredths of a
/// grid unit.
#[derive(Clone, Copy, Debug, PartialEq, Eq, Structural)]
pub struct PiecePart {
    pub mesh: PieceMesh,
    pub offset_x: i32,
    pub offset_y: i32,
    pub offset_z: i32,
}

/// A part at height zero.
pub open spec fn part(mesh: PieceMesh, offset_x: int, offset_z: int) -> PiecePart {
    PiecePart { mesh, offset_x: offset_x as i32, offset_y: 0, offset_z: offset_z as i32 }
}

/// The parts of each kind of piece: two for the king and the knight, one
/// for every other kind.
pub open spec fn parts_of(piece_type: PieceType) -> Seq<PiecePart> {
    match piece_type {
        PieceType::King => seq![part(PieceMesh::King, -20, -190), part(PieceMesh::KingCross, -20, -190)],
        PieceType::Knight => seq![part(PieceMesh::Knight1, -20, 90), part(PieceMesh::Knight2, -20, 90)],
        PieceType::Queen => seq![part(PieceMesh::Queen, -20, -95)],
        PieceType::Bishop => seq![part(PieceMesh::Bishop, -10, 0)],
        PieceType::Rook => seq![part(PieceMesh::Rook, -10, 180)],
        PieceType::Pawn => seq![part(PieceMesh::Pawn, -20, 260)],
    }
}

/// The parts that a piece of the given kind is drawn with.
pub fn piece_parts(piece_type: PieceType) -> (r: Vec<PiecePart>)
    ensures
        r@ == parts_of(piece_type),
{
    let mut parts: Vec<PiecePart> = Vec::new();
    match piece_type {
        PieceType::King => {
            parts.push(PiecePart { mesh: PieceMesh::King, offset_x: -20, offset_y: 0, offset_z: -190 });
            parts.push(PiecePart { mesh: PieceMesh::KingCross, offset_x: -20, offset_y: 0, offset_z: -190 });
        },
        PieceType::Knight => {
            parts.push(PiecePart { mesh: PieceMesh::Knight1, offset_x: -20, offset_y: 0, offset_z: 90 });
            parts.push(PiecePart { mesh: PieceMesh::Knight2, offset_x: -20, offset_y: 0, offset_z: 90 });
        },
        PieceType::Queen => {
            parts.push(PiecePart { mesh: PieceMesh::Queen, offset_x: -20, offset_y: 0, offset_z: -95 });
        },
        PieceType::Bishop => {
            parts.push(PiecePart { mesh: PieceMesh::Bishop, offset_x: -10, offset_y: 0, offset_z: 0 });
        },
        PieceType::Rook => {
            parts.push(PiecePart { mesh: PieceMesh::Rook, offset_x: -10, offset_y: 0, offset_z: 180 });
        },
        PieceType::Pawn => {
            parts.push(PiecePart { mesh: PieceMesh::Pawn, offset_x: -20, offset_y: 0, offset_z: 260 });
        },
    }
    assert(parts@ =~= parts_of(piece_type));
    parts
}

} // verus!
