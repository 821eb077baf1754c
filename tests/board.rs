use chess_set::board::{create_board, grid_to_world, square_color, Square, SquareColor, BOARD_SIZE};

#[test]
fn board_has_sixty_four_squares() {
    let board = create_board();
    assert_eq!(board.len(), 64);
}

#[test]
fn board_covers_every_cell_once() {
    let board = create_board();
    for x in 0..BOARD_SIZE {
        for y in 0..BOARD_SIZE {
            let found = board.iter().filter(|s| s.x == x && s.y == y).count();
            assert_eq!(found, 1, "cell ({}, {})", x, y);
            assert_eq!(board[x as usize * 8 + y as usize], Square { x, y });
        }
    }
    assert!(board.iter().all(|s| s.x < 8 && s.y < 8));
}

#[test]
fn board_order_is_file_by_file() {
    let board = create_board();
    assert_eq!(board[0], Square { x: 0, y: 0 });
    assert_eq!(board[1], Square { x: 0, y: 1 });
    assert_eq!(board[8], Square { x: 1, y: 0 });
    assert_eq!(board[63], Square { x: 7, y: 7 });
}

#[test]
fn corner_colors() {
    assert_eq!(square_color(0, 0), SquareColor::Dark);
    assert_eq!(square_color(0, 1), SquareColor::Light);
    assert_eq!(square_color(1, 0), SquareColor::Light);
    assert_eq!(square_color(7, 7), SquareColor::Dark);
    assert_eq!(square_color(7, 0), SquareColor::Light);
}

#[test]
fn color_follows_parity_rule() {
    for s in create_board() {
        let expected = if (s.x + s.y + 1) % 2 == 0 { SquareColor::Light } else { SquareColor::Dark };
        assert_eq!(s.color(), expected);
        assert_eq!(square_color(s.x, s.y), expected);
    }
}

#[test]
fn adjacent_squares_differ_in_color() {
    for x in 0..BOARD_SIZE {
        for y in 0..BOARD_SIZE {
            if x + 1 < BOARD_SIZE {
                assert_ne!(square_color(x, y), square_color(x + 1, y));
            }
            if y + 1 < BOARD_SIZE {
                assert_ne!(square_color(x, y), square_color(x, y + 1));
            }
        }
    }
}

#[test]
fn color_on_largest_coordinates() {
    assert_eq!(square_color(255, 255), SquareColor::Dark);
    assert_eq!(square_color(255, 0), SquareColor::Light);
}

#[test]
fn grid_maps_to_ground_plane() {
    assert_eq!(grid_to_world(3, 5), (3, 0, 5));
    assert_eq!(grid_to_world(0, 7), (0, 0, 7));
}
