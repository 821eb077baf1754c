use chess_set::pieces::{back_rank_piece, create_pieces, Piece, PieceColor, PieceType};

const BACK_RANK: [PieceType; 8] = [
    PieceType::Rook,
    PieceType::Knight,
    PieceType::Bishop,
    PieceType::Queen,
    PieceType::King,
    PieceType::Bishop,
    PieceType::Knight,
    PieceType::Rook,
];

fn count(pieces: &[Piece], color: PieceColor, kind: PieceType) -> usize {
    pieces.iter().filter(|p| p.color == color && p.piece_type == kind).count()
}

#[test]
fn layout_has_thirty_two_pieces() {
    let pieces = create_pieces();
    assert_eq!(pieces.len(), 32);
    assert_eq!(pieces.iter().filter(|p| p.color == PieceColor::White).count(), 16);
    assert_eq!(pieces.iter().filter(|p| p.color == PieceColor::Black).count(), 16);
}

#[test]
fn layout_counts_per_kind() {
    let pieces = create_pieces();
    for color in [PieceColor::White, PieceColor::Black] {
        assert_eq!(count(&pieces, color, PieceType::Pawn), 8);
        assert_eq!(count(&pieces, color, PieceType::Rook), 2);
        assert_eq!(count(&pieces, color, PieceType::Knight), 2);
        assert_eq!(count(&pieces, color, PieceType::Bishop), 2);
        assert_eq!(count(&pieces, color, PieceType::Queen), 1);
        assert_eq!(count(&pieces, color, PieceType::King), 1);
    }
}

#[test]
fn layout_ranks_and_order() {
    let pieces = create_pieces();
    for (color, home, pawns) in [(PieceColor::White, 0u8, 1u8), (PieceColor::Black, 7, 6)] {
        for file in 0..8u8 {
            let back = Piece { color, piece_type: BACK_RANK[file as usize], x: home, y: file };
            let pawn = Piece { color, piece_type: PieceType::Pawn, x: pawns, y: file };
            assert!(pieces.contains(&back));
            assert!(pieces.contains(&pawn));
        }
    }
    for p in &pieces {
        assert!(p.x < 8 && p.y < 8);
        if p.piece_type == PieceType::Pawn {
            let rank = if p.color == PieceColor::White { 1 } else { 6 };
            assert_eq!(p.x, rank);
        } else {
            let rank = if p.color == PieceColor::White { 0 } else { 7 };
            assert_eq!(p.x, rank);
            assert_eq!(p.piece_type, BACK_RANK[p.y as usize]);
        }
    }
}

#[test]
fn layout_setup_order() {
    let pieces = create_pieces();
    assert_eq!(pieces[0], Piece { color: PieceColor::White, piece_type: PieceType::Rook, x: 0, y: 0 });
    assert_eq!(pieces[4], Piece { color: PieceColor::White, piece_type: PieceType::King, x: 0, y: 4 });
    assert_eq!(pieces[8], Piece { color: PieceColor::White, piece_type: PieceType::Pawn, x: 1, y: 0 });
    assert_eq!(pieces[19], Piece { color: PieceColor::Black, piece_type: PieceType::Queen, x: 7, y: 3 });
    assert_eq!(pieces[31], Piece { color: PieceColor::Black, piece_type: PieceType::Pawn, x: 6, y: 7 });
}

#[test]
fn back_rank_kinds() {
    for file in 0..8u8 {
        assert_eq!(back_rank_piece(file), BACK_RANK[file as usize]);
    }
}

#[test]
fn piece_target_is_its_cell_on_the_ground() {
    let p = Piece { color: PieceColor::Black, piece_type: PieceType::Knight, x: 7, y: 6 };
    assert_eq!(p.target(), (7, 0, 6));
    for p in create_pieces() {
        assert_eq!(p.target(), (p.x, 0, p.y));
    }
}
